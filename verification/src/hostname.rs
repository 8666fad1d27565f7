//! The sandbox hostname: ten random lowercase-alphanumeric characters,
//! drawn fresh for each run.  The name doubles as the control group's name,
//! so this module also shows that every generated name is a valid group
//! name.
use crate::cgroup::valid_group_name;
use crate::text::ascii_to_string;
use vstd::prelude::*;

verus! {

/// A lowercase letter or a digit.
pub open spec fn is_lower_alnum(c: char) -> bool {
    ||| 97 <= c as u32 <= 122
    ||| 48 <= c as u32 <= 57
}

/// A valid sandbox hostname: exactly ten lowercase-alphanumeric characters.
pub open spec fn valid_hostname(s: Seq<char>) -> bool {
    &&& s.len() == 10
    &&& forall|i: int| 0 <= i < s.len() ==> is_lower_alnum(#[trigger] s[i])
}

/// Relies on `rand::random`: one byte from the thread's generator.  Nothing
/// is assumed of its value.
#[verifier::external_body]
fn random_byte() -> u8 {
    rand::random::<u8>()
}

/// Where a byte lands in the hostname alphabet: the 36 classes map onto
/// `a`..`z` then `0`..`9`.
pub open spec fn alphabet_byte(b: u8) -> u8 {
    let x = b as int % 36;
    if x < 26 {
        (97 + x) as u8
    } else {
        (48 + (x - 26)) as u8
    }
}

/// Maps one random byte onto the hostname alphabet.
fn alphabet_char(b: u8) -> (r: u8)
    ensures
        r == alphabet_byte(b),
        (97 <= r <= 122) || (48 <= r <= 57),
{
    let x = b % 36;
    if x < 26 {
        97 + x
    } else {
        48 + (x - 26)
    }
}

/// A fresh random hostname.  The randomness gives each sandbox an
/// observable identity of its own; nothing depends on which name comes out,
/// only that it is ten lowercase-alphanumeric characters.
pub fn generate_hostname() -> (s: String)
    ensures
        valid_hostname(s@),
{
    let mut bytes: Vec<u8> = Vec::new();
    let mut i: usize = 0;
    while i < 10
        invariant
            i <= 10,
            bytes@.len() == i,
            forall|j: int|
                0 <= j < i ==> (97 <= #[trigger] bytes@[j] <= 122) || (48 <= bytes@[j] <= 57),
        decreases 10 - i,
    {
        bytes.push(alphabet_char(random_byte()));
        i = i + 1;
    }
    let s = ascii_to_string(bytes);
    proof {
        assert(forall|j: int| 0 <= j < s@.len() ==> is_lower_alnum(#[trigger] s@[j]));
    }
    s
}

/// Every valid hostname is a valid control-group name: it is non-empty and
/// the alphabet has no path separator.
pub proof fn lemma_hostname_names_cgroup(s: Seq<char>)
    requires
        valid_hostname(s),
    ensures
        valid_group_name(s),
{
    assert forall|i: int| 0 <= i < s.len() implies s[i] != '/' by {
        assert(is_lower_alnum(s[i]));
        assert('/' as u32 == 47);
    }
}

} // verus!
