//! The `Label:command` pair of the auxiliary action.

use vstd::prelude::*;
use vstd::std_specs::iter::IteratorSpec;

verus! {

/// Separator between the label and the command.
pub const SEPARATOR: char = ':';

/// Whether `s` holds the separator anywhere.
pub open spec fn has_separator(s: Seq<char>) -> bool {
    exists|i: int| 0 <= i < s.len() && s[i] == SEPARATOR
}

/// Whether `i` is the position of the first separator in `s`.
pub open spec fn is_first_separator(s: Seq<char>, i: int) -> bool {
    &&& 0 <= i < s.len()
    &&& s[i] == SEPARATOR
    &&& forall|j: int| 0 <= j < i ==> s[j] != SEPARATOR
}

/// The label and the command of configuration string `s`: split at the first
/// separator, or the label `"Unlock"` and all of `s` when there is none.
pub open spec fn split_extra(s: Seq<char>) -> (Seq<char>, Seq<char>) {
    if has_separator(s) {
        let i = choose|i: int| is_first_separator(s, i);
        (s.take(i), s.skip(i + 1))
    } else {
        ("Unlock"@, s)
    }
}

/// Relies on `String::push`: appends one character at the end.
#[verifier::external_body]
fn push_char(s: &mut String, c: char)
    ensures
        final(s)@ == old(s)@.push(c),
{
    s.push(c);
}

/// Splits a configuration string of the form `Label:command` at its first
/// separator. Without a separator the label is `"Unlock"` and the whole string
/// is the command.
pub fn parse_extra_command(extra_command: &str) -> (r: (String, String))
    ensures
        (r.0@, r.1@) == split_extra(extra_command@),
{
    broadcast use vstd::string::axiom_spec_iter;
    let ghost s = extra_command@;
    let mut chars = extra_command.chars();
    let mut label = String::new();
    let mut command = String::new();
    let mut found: bool = false;
    let ghost mut i: int = 0;
    let ghost mut at: int = 0;
    loop
        invariant
            0 <= i <= s.len(),
            chars.remaining() == s.skip(i),
            chars.obeys_prophetic_iter_laws(),
            !found ==> label@ == s.take(i) && command@.len() == 0
                && forall|j: int| 0 <= j < i ==> s[j] != SEPARATOR,
            found ==> is_first_separator(s, at) && at < i && label@ == s.take(at)
                && command@ == s.subrange(at + 1, i),
        ensures
            i == s.len(),
            !found ==> label@ == s.take(i) && forall|j: int| 0 <= j < i ==> s[j] != SEPARATOR,
            found ==> is_first_separator(s, at) && label@ == s.take(at)
                && command@ == s.subrange(at + 1, i),
        decreases s.len() - i,
    {
        match chars.next() {
            None => {
                assert(s.skip(i).len() == 0);
                break;
            },
            Some(c) => {
                assert(s.skip(i)[0] == s[i]);
                if found {
                    push_char(&mut command, c);
                    assert(s.subrange(at + 1, i + 1) =~= s.subrange(at + 1, i).push(c));
                } else if c == SEPARATOR {
                    found = true;
                    proof {
                        at = i;
                    }
                    assert(s.subrange(at + 1, i + 1) =~= Seq::<char>::empty());
                } else {
                    push_char(&mut label, c);
                    assert(s.take(i + 1) =~= s.take(i).push(c));
                }
                assert(s.skip(i).drop_first() =~= s.skip(i + 1));
                proof {
                    i = i + 1;
                }
            },
        }
    }
    if found {
        assert(s.subrange(at + 1, i) =~= s.skip(at + 1));
        assert(has_separator(s));
        let ghost k = choose|k: int| is_first_separator(s, k);
        assert(k == at) by {
            if k < at {
                assert(s[k] != SEPARATOR);
            } else if at < k {
                assert(s[at] != SEPARATOR);
            }
        }
        (label, command)
    } else {
        assert(s.take(i) =~= s);
        assert(!has_separator(s));
        (String::from_str("Unlock"), String::from_str(extra_command))
    }
}

} // verus!
