//! The subscriber-name value type and its validation rules.

use vstd::prelude::*;
use vstd::string::StrSliceExecFns;

use crate::domain::ValidationError;

verus! {

/// Names the verdict of `char::is_whitespace`: whether a character has
/// the Unicode `White_Space` property. The property is a fixed table, so
/// the verdict is a function of the character alone.
pub uninterp spec fn is_whitespace_char(c: char) -> bool;

/// Relies on `char::is_whitespace` of std: it reports whether the
/// character has the Unicode `White_Space` property, and depends on the
/// character alone.
pub assume_specification[ char::is_whitespace ](c: char) -> (r: bool)
    ensures
        r == is_whitespace_char(c),
;

/// The characters a subscriber name may never contain.
pub open spec fn forbidden_char(c: char) -> bool {
    ||| c == '/'
    ||| c == '('
    ||| c == ')'
    ||| c == '"'
    ||| c == '<'
    ||| c == '>'
    ||| c == '\\'
    ||| c == '{'
    ||| c == '}'
}

/// A text is acceptable as a subscriber name when it has 3 to 256
/// characters, contains no forbidden character, and is not made of
/// whitespace alone.
pub open spec fn name_valid(s: Seq<char>) -> bool {
    &&& 3 <= s.len() <= 256
    &&& forall|i: int| 0 <= i < s.len() ==> !forbidden_char(#[trigger] s[i])
    &&& exists|i: int| 0 <= i < s.len() && !is_whitespace_char(#[trigger] s[i])
}

/// A validated subscriber name. The only way to obtain one is
/// [`SubscriberName::parse`], so every value of this type satisfies
/// [`name_valid`].
#[derive(Debug)]
pub struct SubscriberName {
    text: String,
}

impl View for SubscriberName {
    type V = Seq<char>;

    closed spec fn view(&self) -> Seq<char> {
        self.text@
    }
}

impl SubscriberName {
    /// Validates `s` as a subscriber name and wraps it unchanged, or
    /// rejects it. The stored text is exactly the input: trimming is
    /// only part of the whitespace check, never applied to the value.
    pub fn parse(s: String) -> (r: Result<SubscriberName, ValidationError>)
        ensures
            r is Ok <==> name_valid(s@),
            match r {
                Ok(name) => name@ == s@,
                Err(_) => true,
            },
    {
        let text = s.as_str();
        let n: usize = text.unicode_len();
        if n < 3 || n > 256 {
            return Err(ValidationError);
        }
        let mut has_forbidden: bool = false;
        let mut all_whitespace: bool = true;
        let mut i: usize = 0;
        while i < n
            invariant
                i <= n,
                n == s@.len(),
                text@ == s@,
                has_forbidden ==> exists|j: int| 0 <= j < i && forbidden_char(#[trigger] s@[j]),
                !has_forbidden ==> forall|j: int| 0 <= j < i ==> !forbidden_char(#[trigger] s@[j]),
                all_whitespace ==> forall|j: int| 0 <= j < i ==> is_whitespace_char(#[trigger] s@[j]),
                !all_whitespace ==> exists|j: int| 0 <= j < i && !is_whitespace_char(#[trigger] s@[j]),
            decreases n - i,
        {
            let c = text.get_char(i);
            if is_forbidden(c) {
                has_forbidden = true;
            }
            if !c.is_whitespace() {
                all_whitespace = false;
            }
            i = i + 1;
        }
        if has_forbidden || all_whitespace {
            Err(ValidationError)
        } else {
            Ok(SubscriberName { text: s })
        }
    }

    /// The underlying text of the validated name.
    pub fn as_ref(&self) -> (r: &str)
        ensures
            r@ == self@,
    {
        self.text.as_str()
    }

    /// The length of the name in characters.
    pub fn length(&self) -> (n: u64)
        ensures
            n == self@.len(),
    {
        self.text.as_str().unicode_len() as u64
    }
}

/// Whether `c` is one of the characters a name may never contain.
fn is_forbidden(c: char) -> (r: bool)
    ensures
        r == forbidden_char(c),
{
    c == '/' || c == '(' || c == ')' || c == '"' || c == '<' || c == '>' || c == '\\' || c == '{'
        || c == '}'
}

} // verus!
