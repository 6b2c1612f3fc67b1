//! The PCR bank simulator: 24 hash-chained registers, an append-only
//! measurement log, and the replay machinery over them.
//!
//! A register is only ever advanced by `extend`: the new value is the
//! digest of the old value concatenated with the measurement, so a
//! register's content is a function of the entire ordered history of
//! measurements applied since the last reset.

use vstd::prelude::*;
use vstd::string::*;
use crate::digest::{
    sha1_digest, sha1_of, sha256_digest, sha256_of, sha384_digest, sha384_of, sha512_digest,
    sha512_of, sha3_256_digest, sha3_256_of, sha3_384_digest, sha3_384_of, sha3_512_digest,
    sha3_512_of, sm3_digest, sm3_of,
};
use crate::hexcodec::{decode_hex_spec, hex_bytes, hex_str_of, hex_to_bytes, to_hex_string};
use crate::text::{strip_spaces, trim_spec, remove_spaces, trim_str};

verus! {

/// The hash algorithms a PCR bank can chain with.
#[derive(Debug, Clone, Copy, PartialEq, Eq, Structural)]
pub enum HashAlgorithm {
    SHA1,
    SHA256,
    SHA384,
    SHA512,
    SHA3_256,
    SHA3_384,
    SHA3_512,
    SM3,
}

/// The fixed digest size in bytes of each algorithm.
pub open spec fn spec_output_size(a: HashAlgorithm) -> nat {
    match a {
        HashAlgorithm::SHA1 => 20,
        HashAlgorithm::SHA256 => 32,
        HashAlgorithm::SHA384 => 48,
        HashAlgorithm::SHA512 => 64,
        HashAlgorithm::SHA3_256 => 32,
        HashAlgorithm::SHA3_384 => 48,
        HashAlgorithm::SHA3_512 => 64,
        HashAlgorithm::SM3 => 32,
    }
}

/// The digest of `data` under algorithm `a`.
pub open spec fn digest_of(a: HashAlgorithm, data: Seq<u8>) -> Seq<u8> {
    match a {
        HashAlgorithm::SHA1 => sha1_of(data),
        HashAlgorithm::SHA256 => sha256_of(data),
        HashAlgorithm::SHA384 => sha384_of(data),
        HashAlgorithm::SHA512 => sha512_of(data),
        HashAlgorithm::SHA3_256 => sha3_256_of(data),
        HashAlgorithm::SHA3_384 => sha3_384_of(data),
        HashAlgorithm::SHA3_512 => sha3_512_of(data),
        HashAlgorithm::SM3 => sm3_of(data),
    }
}

/// The initial value of register `i`: registers 17 through 22 start
/// all-0xFF, the rest all-zero, each at the algorithm's digest size.
pub open spec fn initial_slot(a: HashAlgorithm, i: int) -> Seq<u8> {
    if 17 <= i && i <= 22 {
        Seq::new(spec_output_size(a), |j: int| 0xFFu8)
    } else {
        Seq::new(spec_output_size(a), |j: int| 0x00u8)
    }
}

/// The register value reached from `init` by extending with each
/// measurement of `ms` in order: each step digests the previous value
/// concatenated with the next measurement.
pub open spec fn chain(a: HashAlgorithm, init: Seq<u8>, ms: Seq<Seq<u8>>) -> Seq<u8>
    decreases ms.len(),
{
    if ms.len() == 0 {
        init
    } else {
        digest_of(a, chain(a, init, ms.drop_last()) + ms.last())
    }
}

/// ASCII-lowercase folding of a character's scalar value, for
/// case-insensitive name comparison.
pub open spec fn lower_scalar(c: char) -> u32 {
    let u = c as u32;
    if 0x41 <= u && u <= 0x5A {
        (u + 0x20) as u32
    } else {
        u
    }
}

/// `s` and `t` are the same name up to ASCII case.
pub open spec fn name_matches(s: Seq<char>, t: Seq<char>) -> bool {
    s.len() == t.len() && forall|i: int|
        0 <= i < s.len() ==> lower_scalar(s[i]) == lower_scalar(t[i])
}

/// The algorithm a name designates, case-insensitively; `None` for an
/// unrecognized name.
pub open spec fn algorithm_of_name(s: Seq<char>) -> Option<HashAlgorithm> {
    if name_matches(s, "sha1"@) {
        Some(HashAlgorithm::SHA1)
    } else if name_matches(s, "sha256"@) {
        Some(HashAlgorithm::SHA256)
    } else if name_matches(s, "sha384"@) {
        Some(HashAlgorithm::SHA384)
    } else if name_matches(s, "sha512"@) {
        Some(HashAlgorithm::SHA512)
    } else if name_matches(s, "sha3-256"@) || name_matches(s, "sha3_256"@) {
        Some(HashAlgorithm::SHA3_256)
    } else if name_matches(s, "sha3-384"@) || name_matches(s, "sha3_384"@) {
        Some(HashAlgorithm::SHA3_384)
    } else if name_matches(s, "sha3-512"@) || name_matches(s, "sha3_512"@) {
        Some(HashAlgorithm::SHA3_512)
    } else if name_matches(s, "sm3"@) {
        Some(HashAlgorithm::SM3)
    } else {
        None
    }
}

fn name_eq_ci(s: &str, t: &str) -> (r: bool)
    ensures
        r == name_matches(s@, t@),
{
    let ns = s.unicode_len();
    let nt = t.unicode_len();
    if ns != nt {
        return false;
    }
    let mut i: usize = 0;
    while i < ns
        invariant
            ns == s@.len(),
            ns == t@.len(),
            0 <= i <= ns,
            forall|j: int| 0 <= j < i ==> lower_scalar(s@[j]) == lower_scalar(t@[j]),
        decreases ns - i,
    {
        let cs = s.get_char(i) as u32;
        let ct = t.get_char(i) as u32;
        let ls = if 0x41 <= cs && cs <= 0x5A {
            cs + 0x20
        } else {
            cs
        };
        let lt = if 0x41 <= ct && ct <= 0x5A {
            ct + 0x20
        } else {
            ct
        };
        if ls != lt {
            return false;
        }
        i = i + 1;
    }
    true
}

impl HashAlgorithm {
    /// Looks an algorithm up by name, case-insensitively; an
    /// unrecognized name yields `None`, not an error.
    pub fn from_str(algorithm: &str) -> (r: Option<Self>)
        ensures
            r == algorithm_of_name(algorithm@),
    {
        if name_eq_ci(algorithm, "sha1") {
            Some(HashAlgorithm::SHA1)
        } else if name_eq_ci(algorithm, "sha256") {
            Some(HashAlgorithm::SHA256)
        } else if name_eq_ci(algorithm, "sha384") {
            Some(HashAlgorithm::SHA384)
        } else if name_eq_ci(algorithm, "sha512") {
            Some(HashAlgorithm::SHA512)
        } else if name_eq_ci(algorithm, "sha3-256") || name_eq_ci(algorithm, "sha3_256") {
            Some(HashAlgorithm::SHA3_256)
        } else if name_eq_ci(algorithm, "sha3-384") || name_eq_ci(algorithm, "sha3_384") {
            Some(HashAlgorithm::SHA3_384)
        } else if name_eq_ci(algorithm, "sha3-512") || name_eq_ci(algorithm, "sha3_512") {
            Some(HashAlgorithm::SHA3_512)
        } else if name_eq_ci(algorithm, "sm3") {
            Some(HashAlgorithm::SM3)
        } else {
            None
        }
    }

    /// The display names of all supported algorithms, in a fixed order.
    pub fn all_algorithms() -> (r: Vec<&'static str>)
        ensures
            r@.len() == 8,
            r@[0]@ == "SHA1"@,
            r@[1]@ == "SHA256"@,
            r@[2]@ == "SHA384"@,
            r@[3]@ == "SHA512"@,
            r@[4]@ == "SHA3-256"@,
            r@[5]@ == "SHA3-384"@,
            r@[6]@ == "SHA3-512"@,
            r@[7]@ == "SM3"@,
    {
        let mut r: Vec<&'static str> = Vec::new();
        r.push("SHA1");
        r.push("SHA256");
        r.push("SHA384");
        r.push("SHA512");
        r.push("SHA3-256");
        r.push("SHA3-384");
        r.push("SHA3-512");
        r.push("SM3");
        r
    }

    /// The algorithm's digest size in bytes.
    pub fn output_size_bytes(&self) -> (r: usize)
        ensures
            r == spec_output_size(*self),
    {
        match self {
            HashAlgorithm::SHA1 => 20,
            HashAlgorithm::SHA256 | HashAlgorithm::SHA3_256 | HashAlgorithm::SM3 => 32,
            HashAlgorithm::SHA384 | HashAlgorithm::SHA3_384 => 48,
            HashAlgorithm::SHA512 | HashAlgorithm::SHA3_512 => 64,
        }
    }
}

/// The result of `PcrSimulator::parse_hex`: the bytes of the input after
/// trimming and removing spaces, or `None` when what remains is not a
/// valid even-length hex string.
pub open spec fn parse_hex_spec(s: Seq<char>) -> Option<Seq<u8>> {
    decode_hex_spec(strip_spaces(trim_spec(s)))
}

/// How many leading entries of `ms` parse as hex measurements: the index
/// of the first failing entry, or the length when every entry parses.
pub open spec fn parse_ok_count(ms: Seq<Seq<char>>) -> int
    decreases ms.len(),
{
    if ms.len() == 0 {
        0
    } else if parse_hex_spec(ms[0]) is None {
        0
    } else {
        1 + parse_ok_count(ms.drop_first())
    }
}

/// The parsed bytes of each entry of `ms`, assuming each parses.
pub open spec fn parsed_list(ms: Seq<Seq<char>>) -> Seq<Seq<u8>> {
    Seq::new(ms.len(), |i: int| parse_hex_spec(ms[i])->0)
}

proof fn lemma_parse_ok_count_is(ms: Seq<Seq<char>>, k: int)
    requires
        0 <= k <= ms.len(),
        forall|i: int| 0 <= i < k ==> parse_hex_spec(#[trigger] ms[i]) is Some,
        k < ms.len() ==> parse_hex_spec(ms[k]) is None,
    ensures
        parse_ok_count(ms) == k,
    decreases ms.len(),
{
    if ms.len() == 0 {
    } else if k == 0 {
    } else {
        let rest = ms.drop_first();
        assert forall|i: int| 0 <= i < k - 1 implies parse_hex_spec(#[trigger] rest[i]) is Some by {
            assert(rest[i] == ms[i + 1]);
        }
        if k - 1 < rest.len() {
            assert(rest[k - 1] == ms[k]);
        }
        lemma_parse_ok_count_is(rest, k - 1);
    }
}

/// A TPM-style PCR bank simulator: 24 registers chained under one
/// algorithm, with an append-only log of the measurements applied.
#[derive(Debug, Clone)]
pub struct PcrSimulator {
    pub algorithm: HashAlgorithm,
    pub pcr_values: Vec<Vec<u8>>,
    pub measurement_log: Vec<(String, Vec<u8>, usize)>,
}

impl PcrSimulator {
    /// The bank's structural invariant: exactly 24 registers, each at
    /// the active algorithm's digest size, and every logged measurement
    /// aimed at a valid register.
    pub open spec fn wf(self) -> bool {
        &&& self.pcr_values@.len() == 24
        &&& forall|i: int|
            0 <= i < 24 ==> (#[trigger] self.pcr_values@[i])@.len() == spec_output_size(
                self.algorithm,
            )
        &&& forall|i: int|
            0 <= i < self.measurement_log@.len() ==> (#[trigger] self.measurement_log@[i]).2 < 24
    }

    /// A fresh bank: every register at its initial value, the log empty.
    pub fn new(algorithm: HashAlgorithm) -> (r: Self)
        ensures
            r.wf(),
            r.algorithm == algorithm,
            r.measurement_log@.len() == 0,
            forall|i: int| 0 <= i < 24 ==> (#[trigger] r.pcr_values@[i])@ == initial_slot(
                algorithm, i),
    {
        let output_size = algorithm.output_size_bytes();
        let mut pcr_values: Vec<Vec<u8>> = Vec::new();
        let mut i: usize = 0;
        while i < 24
            invariant
                output_size == spec_output_size(algorithm),
                0 <= i <= 24,
                pcr_values@.len() == i,
                forall|j: int| 0 <= j < i ==> (#[trigger] pcr_values@[j])@ == initial_slot(
                    algorithm, j),
            decreases 24 - i,
        {
            if i >= 17 && i <= 22 {
                let v = vec![0xFFu8; output_size];
                proof {
                    assert(v@ =~= initial_slot(algorithm, i as int));
                }
                pcr_values.push(v);
            } else {
                let v = vec![0x00u8; output_size];
                proof {
                    assert(v@ =~= initial_slot(algorithm, i as int));
                }
                pcr_values.push(v);
            }
            i = i + 1;
        }
        Self { algorithm, pcr_values, measurement_log: Vec::new() }
    }

    /// The digest of `data` under the bank's active algorithm.
    pub fn hash(&self, data: &[u8]) -> (r: Vec<u8>)
        ensures
            r@ == digest_of(self.algorithm, data@),
            r@.len() == spec_output_size(self.algorithm),
    {
        match self.algorithm {
            HashAlgorithm::SHA1 => sha1_digest(data),
            HashAlgorithm::SHA256 => sha256_digest(data),
            HashAlgorithm::SHA384 => sha384_digest(data),
            HashAlgorithm::SHA512 => sha512_digest(data),
            HashAlgorithm::SHA3_256 => sha3_256_digest(data),
            HashAlgorithm::SHA3_384 => sha3_384_digest(data),
            HashAlgorithm::SHA3_512 => sha3_512_digest(data),
            HashAlgorithm::SM3 => sm3_digest(data),
        }
    }

    /// One extend step: replaces register `pcr_index` with the digest of
    /// its current value concatenated with `measurement`. Irreversible
    /// and order-sensitive; nothing else changes.
    pub fn extend_pcr(&mut self, pcr_index: usize, measurement: &[u8]) -> (r: Result<(), String>)
        requires
            old(self).wf(),
        ensures
            final(self).wf(),
            final(self).algorithm == old(self).algorithm,
            final(self).measurement_log == old(self).measurement_log,
            r is Ok <==> pcr_index < 24,
            r is Err ==> *final(self) == *old(self) && r->Err_0@ == "Invalid PCR index"@,
            r is Ok ==> (final(self).pcr_values@[pcr_index as int])@ == digest_of(
                old(self).algorithm,
                (old(self).pcr_values@[pcr_index as int])@ + measurement@,
            ),
            r is Ok ==> forall|j: int|
                0 <= j < 24 && j != pcr_index ==> final(self).pcr_values@[j] == old(
                    self,
                ).pcr_values@[j],
    {
        if pcr_index >= self.pcr_values.len() {
            return Err(String::from_str("Invalid PCR index"));
        }
        let mut data: Vec<u8> = Vec::new();
        data.extend_from_slice(self.pcr_values[pcr_index].as_slice());
        data.extend_from_slice(measurement);
        proof {
            assert(data@ =~= (self.pcr_values@[pcr_index as int])@ + measurement@);
        }
        let result = self.hash(data.as_slice());
        self.pcr_values[pcr_index] = result;
        Ok(())
    }

    /// Adds a measurement: decodes the hex value, and only on success
    /// appends a log entry and extends the register; any failure leaves
    /// the bank and the log untouched.
    pub fn add_measurement(
        &mut self,
        description: String,
        hex_value: &str,
        pcr_index: usize,
    ) -> (r: Result<(), String>)
        requires
            old(self).wf(),
        ensures
            final(self).wf(),
            final(self).algorithm == old(self).algorithm,
            r is Ok <==> (decode_hex_spec(hex_value@) is Some && pcr_index < 24),
            r is Err ==> *final(self) == *old(self),
            r is Err && decode_hex_spec(hex_value@) is None ==> r->Err_0@
                == "Failed to decode measurement"@,
            r is Err && decode_hex_spec(hex_value@) is Some ==> r->Err_0@
                == "Invalid PCR index"@,
            r is Ok ==> {
                let bytes = hex_bytes(hex_value@);
                &&& final(self).measurement_log@.len() == old(self).measurement_log@.len() + 1
                &&& final(self).measurement_log@.drop_last() == old(self).measurement_log@
                &&& final(self).measurement_log@.last().0 == description
                &&& (final(self).measurement_log@.last().1)@ == bytes
                &&& final(self).measurement_log@.last().2 == pcr_index
                &&& (final(self).pcr_values@[pcr_index as int])@ == digest_of(
                    old(self).algorithm,
                    (old(self).pcr_values@[pcr_index as int])@ + bytes,
                )
                &&& forall|j: int|
                    0 <= j < 24 && j != pcr_index ==> final(self).pcr_values@[j] == old(
                        self,
                    ).pcr_values@[j]
            },
    {
        let decoded = hex_to_bytes(hex_value);
        match decoded {
            None => Err(String::from_str("Failed to decode measurement")),
            Some(value) => {
                if pcr_index >= self.pcr_values.len() {
                    return Err(String::from_str("Invalid PCR index"));
                }
                let logged = value.clone();
                proof {
                    assert(logged@ =~= value@);
                }
                self.measurement_log.push((description, logged, pcr_index));
                let _ = self.extend_pcr(pcr_index, value.as_slice());
                proof {
                    assert(final(self).measurement_log@.drop_last() =~= old(
                        self,
                    ).measurement_log@);
                }
                Ok(())
            },
        }
    }

    /// Reinitializes every register to its initial value and clears the
    /// measurement log; the algorithm is kept.
    pub fn reset(&mut self)
        requires
            old(self).pcr_values@.len() == 24,
        ensures
            final(self).wf(),
            final(self).algorithm == old(self).algorithm,
            final(self).measurement_log@.len() == 0,
            forall|i: int| 0 <= i < 24 ==> (#[trigger] final(self).pcr_values@[i])@
                == initial_slot(final(self).algorithm, i),
    {
        let output_size = self.algorithm.output_size_bytes();
        let mut i: usize = 0;
        while i < self.pcr_values.len()
            invariant
                self.pcr_values@.len() == 24,
                self.algorithm == old(self).algorithm,
                self.measurement_log == old(self).measurement_log,
                output_size == spec_output_size(self.algorithm),
                0 <= i <= 24,
                forall|j: int| 0 <= j < i ==> (#[trigger] self.pcr_values@[j])@ == initial_slot(
                    self.algorithm, j),
            decreases 24 - i,
        {
            if i >= 17 && i <= 22 {
                let v = vec![0xFFu8; output_size];
                proof {
                    assert(v@ =~= initial_slot(self.algorithm, i as int));
                }
                self.pcr_values[i] = v;
            } else {
                let v = vec![0x00u8; output_size];
                proof {
                    assert(v@ =~= initial_slot(self.algorithm, i as int));
                }
                self.pcr_values[i] = v;
            }
            i = i + 1;
        }
        self.measurement_log.clear();
    }

    /// The hex rendering of one register's current value.
    pub fn get_pcr_hex_string(&self, index: usize) -> (r: Result<String, String>)
        requires
            self.wf(),
        ensures
            r is Ok <==> index < 24,
            r matches Ok(h) ==> h@ == hex_str_of((self.pcr_values@[index as int])@),
            r matches Err(m) ==> m@ == "Invalid PCR index"@,
    {
        if index >= self.pcr_values.len() {
            return Err(String::from_str("Invalid PCR index"));
        }
        Ok(to_hex_string(self.pcr_values[index].as_slice()))
    }

    /// Parses a hex measurement string: trims it, removes embedded
    /// spaces, then decodes; fails on odd length or non-hex characters.
    pub fn parse_hex(hex_str: &str) -> (r: Result<Vec<u8>, String>)
        ensures
            r is Ok <==> parse_hex_spec(hex_str@) is Some,
            r matches Ok(v) ==> v@ == parse_hex_spec(hex_str@)->0,
            r matches Err(m) ==> m@ == "Invalid hex string"@,
    {
        let trimmed = trim_str(hex_str);
        let cleaned = remove_spaces(trimmed);
        match hex_to_bytes(cleaned.as_str()) {
            Some(v) => Ok(v),
            None => Err(String::from_str("Invalid hex string")),
        }
    }

    /// Replays an ordered list of measurements into one register: resets
    /// only that register to its initial value, then extends with each
    /// entry in order, stopping at the first entry that fails to parse.
    /// Extensions applied before a failing entry are not rolled back.
    pub fn replay(&mut self, pcr_index: usize, measurements: &[String]) -> (r: Result<
        String,
        String,
    >)
        requires
            old(self).wf(),
        ensures
            final(self).wf(),
            final(self).algorithm == old(self).algorithm,
            final(self).measurement_log == old(self).measurement_log,
            pcr_index >= 24 ==> r is Err && *final(self) == *old(self) && r->Err_0@
                == "Invalid PCR index"@,
            pcr_index < 24 ==> {
                let ms = measurements.deep_view();
                let k = parse_ok_count(ms);
                &&& (r is Ok <==> k == ms.len())
                &&& (final(self).pcr_values@[pcr_index as int])@ == chain(
                    old(self).algorithm,
                    initial_slot(old(self).algorithm, pcr_index as int),
                    parsed_list(ms.take(k)),
                )
                &&& forall|j: int|
                    0 <= j < 24 && j != pcr_index ==> final(self).pcr_values@[j] == old(
                        self,
                    ).pcr_values@[j]
                &&& (r matches Ok(h) ==> h@ == hex_str_of(
                    (final(self).pcr_values@[pcr_index as int])@,
                ))
                &&& (r matches Err(m) ==> m@ == "Invalid hex string"@)
            },
    {
        if pcr_index >= self.pcr_values.len() {
            return Err(String::from_str("Invalid PCR index"));
        }
        let ghost ms = measurements.deep_view();
        let output_size = self.algorithm.output_size_bytes();
        if pcr_index >= 17 && pcr_index <= 22 {
            let v = vec![0xFFu8; output_size];
            proof {
                assert(v@ =~= initial_slot(self.algorithm, pcr_index as int));
            }
            self.pcr_values[pcr_index] = v;
        } else {
            let v = vec![0x00u8; output_size];
            proof {
                assert(v@ =~= initial_slot(self.algorithm, pcr_index as int));
            }
            self.pcr_values[pcr_index] = v;
        }
        let ghost init = initial_slot(self.algorithm, pcr_index as int);
        let n = measurements.len();
        let mut i: usize = 0;
        while i < n
            invariant
                self.wf(),
                self.algorithm == old(self).algorithm,
                self.measurement_log == old(self).measurement_log,
                pcr_index < 24,
                n == ms.len(),
                ms == measurements.deep_view(),
                init == initial_slot(self.algorithm, pcr_index as int),
                0 <= i <= n,
                forall|j: int| 0 <= j < i ==> parse_hex_spec(#[trigger] ms[j]) is Some,
                (self.pcr_values@[pcr_index as int])@ == chain(
                    self.algorithm,
                    init,
                    parsed_list(ms.take(i as int)),
                ),
                forall|j: int|
                    0 <= j < 24 && j != pcr_index ==> self.pcr_values@[j] == old(
                        self,
                    ).pcr_values@[j],
            decreases n - i,
        {
            proof {
                assert(ms[i as int] == measurements@[i as int]@);
            }
            let parsed = Self::parse_hex(&measurements[i]);
            match parsed {
                Err(m) => {
                    proof {
                        lemma_parse_ok_count_is(ms, i as int);
                    }
                    return Err(m);
                },
                Ok(value) => {
                    let _ = self.extend_pcr(pcr_index, value.as_slice());
                    proof {
                        let t = parsed_list(ms.take(i as int + 1));
                        assert(t.drop_last() =~= parsed_list(ms.take(i as int)));
                        assert(t.last() == value@);
                        assert((self.pcr_values@[pcr_index as int])@ == chain(
                            self.algorithm,
                            init,
                            t,
                        ));
                    }
                },
            }
            i = i + 1;
        }
        proof {
            lemma_parse_ok_count_is(ms, n as int);
            assert(ms.take(n as int) =~= ms);
        }
        self.get_pcr_hex_string(pcr_index)
    }

    /// A snapshot of every register's hex value, ordered by index.
    pub fn get_all_pcr_values(&self) -> (r: Vec<(usize, String)>)
        requires
            self.wf(),
        ensures
            r@.len() == 24,
            forall|i: int|
                0 <= i < 24 ==> (#[trigger] r@[i]).0 == i && (r@[i].1)@ == hex_str_of(
                    (self.pcr_values@[i])@,
                ),
    {
        let mut result: Vec<(usize, String)> = Vec::new();
        let mut index: usize = 0;
        while index < self.pcr_values.len()
            invariant
                self.wf(),
                0 <= index <= 24,
                result@.len() == index,
                forall|i: int|
                    0 <= i < index ==> (#[trigger] result@[i]).0 == i && (result@[i].1)@
                        == hex_str_of((self.pcr_values@[i])@),
            decreases 24 - index,
        {
            result.push((index, to_hex_string(self.pcr_values[index].as_slice())));
            index = index + 1;
        }
        result
    }

    /// Switches the active algorithm: the bank is reinitialized for the
    /// new digest size and the log is cleared; no cross-algorithm
    /// continuity is kept.
    pub fn change_algorithm(&mut self, algorithm: HashAlgorithm)
        requires
            old(self).wf(),
        ensures
            final(self).wf(),
            final(self).algorithm == algorithm,
            final(self).measurement_log@.len() == 0,
            forall|i: int| 0 <= i < 24 ==> (#[trigger] final(self).pcr_values@[i])@
                == initial_slot(algorithm, i),
    {
        self.algorithm = algorithm;
        self.reset();
    }
}

/// Extending is a pure function of the prior register value and the
/// measurement bytes: identical inputs always give identical outputs.
pub proof fn lemma_extend_deterministic(
    a: HashAlgorithm,
    prior1: Seq<u8>,
    m1: Seq<u8>,
    prior2: Seq<u8>,
    m2: Seq<u8>,
)
    requires
        prior1 == prior2,
        m1 == m2,
    ensures
        digest_of(a, prior1 + m1) == digest_of(a, prior2 + m2),
{
}

/// Replaying equals extending sequentially: the chained value over a
/// list of measurements starts at the reset value and advances by one
/// extend step per measurement, in order.
pub proof fn lemma_replay_round_trip(a: HashAlgorithm, init: Seq<u8>, ms: Seq<Seq<u8>>, m: Seq<u8>)
    ensures
        chain(a, init, Seq::<Seq<u8>>::empty()) == init,
        chain(a, init, ms.push(m)) == digest_of(a, chain(a, init, ms) + m),
{
    assert(ms.push(m).drop_last() =~= ms);
    assert(ms.push(m).last() == m);
}

} // verus!
