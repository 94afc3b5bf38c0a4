//! Grammar symbols and the whitespace rule their names obey.
use vstd::prelude::*;

use crate::errors::LSystemError;

verus! {

/// The characters with the Unicode `White_Space` property.
pub open spec fn is_whitespace_char(c: char) -> bool {
    let u = c as u32;
    (0x9 <= u && u <= 0xD) || u == 0x20 || u == 0x85 || u == 0xA0 || u == 0x1680 || (0x2000 <= u
        && u <= 0x200A) || u == 0x2028 || u == 0x2029 || u == 0x202F || u == 0x205F || u == 0x3000
}

/// A symbol name is non-empty and holds no whitespace.
pub open spec fn valid_token_name(name: Seq<char>) -> bool {
    name.len() > 0 && forall|i: int| 0 <= i < name.len() ==> !is_whitespace_char(#[trigger] name[i])
}

/// Whether `c` has the Unicode `White_Space` property.
pub fn is_whitespace(c: char) -> (r: bool)
    ensures
        r == is_whitespace_char(c),
{
    let u = c as u32;
    (0x9 <= u && u <= 0xD) || u == 0x20 || u == 0x85 || u == 0xA0 || u == 0x1680 || (0x2000 <= u
        && u <= 0x200A) || u == 0x2028 || u == 0x2029 || u == 0x202F || u == 0x205F || u == 0x3000
}

/// A grammar symbol. The system that owns it refers to it by an
/// [`ArenaId`](crate::arena::ArenaId).
#[derive(Debug, Clone, PartialEq, Eq)]
pub struct Token {
    name: String,
}

impl View for Token {
    type V = Seq<char>;

    /// The display name.
    closed spec fn view(&self) -> Seq<char> {
        self.name@
    }
}

impl Token {
    /// A token named `name`; fails with [`LSystemError::InvalidToken`] when the
    /// name is empty or holds whitespace.
    pub fn new(name: &str) -> (r: Result<Token, LSystemError>)
        ensures
            valid_token_name(name@) <==> r is Ok,
            r is Ok ==> r->Ok_0@ == name@,
            r is Err ==> (r->Err_0 matches LSystemError::InvalidToken(s) && s@ == name@),
    {
        let n = name.unicode_len();
        let mut i: usize = 0;
        while i < n
            invariant
                n == name@.len(),
                i <= n,
                forall|j: int| 0 <= j < i ==> !is_whitespace_char(#[trigger] name@[j]),
            decreases n - i,
        {
            if is_whitespace(name.get_char(i)) {
                return Err(LSystemError::InvalidToken(String::from_str(name)));
            }
            i = i + 1;
        }
        if n == 0 {
            return Err(LSystemError::InvalidToken(String::from_str(name)));
        }
        Ok(Token { name: String::from_str(name) })
    }

    /// Whether the display name is `name`.
    pub fn is_named(&self, name: &str) -> (r: bool)
        ensures
            r == (self@ == name@),
    {
        let own = self.name.as_str();
        let n = own.unicode_len();
        if n != name.unicode_len() {
            return false;
        }
        let mut i: usize = 0;
        while i < n
            invariant
                n == own@.len(),
                n == name@.len(),
                own@ == self@,
                i <= n,
                forall|j: int| 0 <= j < i ==> own@[j] == name@[j],
            decreases n - i,
        {
            if own.get_char(i) != name.get_char(i) {
                return false;
            }
            i = i + 1;
        }
        assert(own@ =~= name@);
        true
    }

    /// The display name.
    pub fn name(&self) -> (r: &str)
        ensures
            r@ == self@,
    {
        self.name.as_str()
    }
}

} // verus!
