//! Privacy shield: masks sensitive strings on the device before any
//! hypothetical transmission. The masking is a pure function of the shield's
//! level and the input string.

use vstd::prelude::*;

verus! {

/// The mock hash the paranoid mask uses: the wrapping sum of the input's
/// characters. A deterministic, non-cryptographic stand-in.
pub open spec fn char_sum(s: Seq<char>) -> u64
    decreases s.len(),
{
    if s.len() == 0 {
        0u64
    } else {
        vstd::wrapping::u64_specs::wrapping_add(char_sum(s.drop_last()), s.last() as u64)
    }
}

/// The character a single hexadecimal digit prints as (lower case).
pub open spec fn hex_digit_char(d: nat) -> char {
    "0123456789abcdef"@[d as int]
}

/// The hexadecimal rendering of `n`, lower case, without leading zeros
/// (a single `'0'` for zero).
pub open spec fn hex_seq(n: nat) -> Seq<char>
    decreases n,
{
    if n < 16 {
        seq![hex_digit_char(n)]
    } else {
        hex_seq(n / 16).push(hex_digit_char(n % 16))
    }
}

/// What the shield returns for each level:
/// - `Standard` passes the input through unchanged;
/// - `High` replaces anything containing `'@'` by a fixed placeholder and
///   tags everything else with a prefix plus its first four characters (or
///   all of them, if it is shorter);
/// - `Paranoid` exposes only a tag around the hexadecimal mock hash.
pub open spec fn spec_mask(level: crate::PrivacyLevel, data: Seq<char>) -> Seq<char> {
    match level {
        crate::PrivacyLevel::Standard => data,
        crate::PrivacyLevel::High => if data.contains('@') {
            "***@masked.ch"@
        } else {
            "SECURE-"@ + data.take(if data.len() < 4 {
                data.len() as int
            } else {
                4
            })
        },
        crate::PrivacyLevel::Paranoid => "HASH-"@ + hex_seq(char_sum(data) as nat),
    }
}

pub struct PrivacyShield {
    pub level: super::PrivacyLevel,
}

impl PrivacyShield {
    pub fn new(level: super::PrivacyLevel) -> (shield: Self)
        ensures
            shield.level == level,
    {
        Self { level }
    }

    /// Masks a sensitive string according to the shield's level.
    pub fn mask_data(&self, data: &str) -> (masked: String)
        ensures
            masked@ == spec_mask(self.level, data@),
    {
        match self.level {
            crate::PrivacyLevel::Standard => data.to_owned(),
            crate::PrivacyLevel::High => {
                if contains_char(data, '@') {
                    String::from_str("***@masked.ch")
                } else {
                    let len = data.unicode_len();
                    let cut = if len < 4 {
                        len
                    } else {
                        4
                    };
                    let tag = String::from_str("SECURE-").concat(data.substring_char(0, cut));
                    proof {
                        assert(tag@ =~= spec_mask(self.level, data@));
                    }
                    tag
                }
            },
            crate::PrivacyLevel::Paranoid => {
                let digest = md5_mock(data);
                let tag = String::from_str("HASH-").concat(to_hex(digest).as_str());
                tag
            },
        }
    }
}

/// Whether the string contains the given character.
fn contains_char(data: &str, needle: char) -> (found: bool)
    ensures
        found == data@.contains(needle),
{
    let len = data.unicode_len();
    let mut i: usize = 0;
    while i < len
        invariant
            i <= len,
            len == data@.len(),
            forall|k: int| 0 <= k < i ==> data@[k] != needle,
        decreases len - i,
    {
        if data.get_char(i) == needle {
            return true;
        }
        i = i + 1;
    }
    false
}

/// The mock hash: folds the characters with a wrapping sum.
fn md5_mock(data: &str) -> (digest: u64)
    ensures
        digest == char_sum(data@),
{
    let len = data.unicode_len();
    let mut acc: u64 = 0;
    let mut i: usize = 0;
    while i < len
        invariant
            i <= len,
            len == data@.len(),
            acc == char_sum(data@.take(i as int)),
        decreases len - i,
    {
        let c = data.get_char(i);
        acc = acc.wrapping_add(c as u64);
        i = i + 1;
        proof {
            assert(data@.take(i as int).drop_last() =~= data@.take(i - 1));
        }
    }
    proof {
        assert(data@.take(len as int) =~= data@);
    }
    acc
}

/// One hexadecimal digit as a fresh one-character string.
fn hex_digit_str(d: u64) -> (digit: String)
    requires
        d < 16,
    ensures
        digit@ =~= seq![hex_digit_char(d as nat)],
{
    let table = "0123456789abcdef";
    proof {
        reveal_strlit("0123456789abcdef");
    }
    let slice = table.substring_char(d as usize, d as usize + 1);
    String::from_str(slice)
}

/// Renders `n` in lower-case hexadecimal without leading zeros.
fn to_hex(n: u64) -> (rendered: String)
    ensures
        rendered@ == hex_seq(n as nat),
{
    let mut acc = hex_digit_str(n % 16);
    let mut m = n / 16;
    while m > 0
        invariant
            m > 0 ==> hex_seq(n as nat) == hex_seq(m as nat) + acc@,
            m == 0 ==> hex_seq(n as nat) == acc@,
        decreases m,
    {
        let digit = hex_digit_str(m % 16);
        let ghost old_acc = acc@;
        let ghost old_m = m as nat;
        acc = digit.concat(acc.as_str());
        m = m / 16;
        proof {
            if old_m < 16 {
                assert(hex_seq(old_m) =~= seq![hex_digit_char(old_m)]);
                assert(hex_seq(n as nat) =~= acc@);
            } else {
                assert(hex_seq(old_m) =~= hex_seq(old_m / 16).push(hex_digit_char(old_m % 16)));
                assert(hex_seq(old_m) =~= hex_seq(m as nat) + seq![hex_digit_char(old_m % 16)]);
                assert(hex_seq(n as nat) =~= hex_seq(m as nat) + acc@);
            }
        }
    }
    acc
}

} // verus!
