//! What a foreign caller is told of errors: a code, and the text of the
//! last error.

use vstd::prelude::*;
use vstd::string::StrSliceExecFns;
use vstd::string::StringExecFns;
use crate::error::Describe;

verus! {

/// The code of a call that succeeded.
pub const TXKIT_SUCCESS: i32 = 0;

/// The text of the last error, which is empty after a call that
/// succeeded.  A foreign caller reads it as a string that ends at the first
/// character zero, so it holds none.
pub struct State {
    last_error: String,
}

impl View for State {
    type V = Seq<char>;

    closed spec fn view(&self) -> Seq<char> {
        self.last_error@
    }
}

/// The text that is kept of an error: the error's own, unless that holds a
/// character zero.
pub open spec fn spec_kept(e: Seq<char>) -> Seq<char> {
    if e.contains('\0') {
        "invalid error message"@
    } else {
        e
    }
}

fn has_zero(e: &str) -> (r: bool)
    ensures
        r == e@.contains('\0'),
{
    let n = e.unicode_len();
    let mut i: usize = 0;
    while i < n
        invariant
            i <= n,
            n == e@.len(),
            forall|j: int| 0 <= j < i ==> e@[j] != '\0',
        decreases n - i,
    {
        if e.get_char(i) == '\0' {
            return true;
        }
        i += 1;
    }
    false
}

impl State {
    #[verifier::type_invariant]
    spec fn inv(self) -> bool {
        !self.last_error@.contains('\0')
    }

    /// No error has occurred.
    pub fn new() -> (r: Self)
        ensures
            r@ == Seq::<char>::empty(),
    {
        State { last_error: String::new() }
    }

    pub fn clear_last_error(&mut self)
        ensures
            final(self)@ == Seq::<char>::empty(),
    {
        *self = State { last_error: String::new() };
    }

    pub fn set_last_error(&mut self, e: &str)
        ensures
            final(self)@ == spec_kept(e@),
            !final(self)@.contains('\0'),
    {
        if has_zero(e) {
            proof {
                reveal_strlit("invalid error message");
            }
            *self = State { last_error: String::from_str("invalid error message") };
        } else {
            *self = State { last_error: String::from_str(e) };
        }
    }

    /// The text of the last error, or nothing where the last call
    /// succeeded.
    pub fn last_error(&self) -> (r: Option<&str>)
        ensures
            match r {
                Some(text) => text@ == self@ && self@.len() > 0,
                None => self@.len() == 0,
            },
            !self@.contains('\0'),
    {
        proof {
            use_type_invariant(self);
        }
        if self.last_error.as_str().unicode_len() == 0 {
            None
        } else {
            Some(self.last_error.as_str())
        }
    }
}

/// Forgets the last error.
pub fn clear_last_error(state: &mut State)
    ensures
        final(state)@ == Seq::<char>::empty(),
{
    state.clear_last_error()
}

/// Keeps the text of an error as the last error.
pub fn set_last_error(state: &mut State, e: &str)
    ensures
        final(state)@ == spec_kept(e@),
{
    state.set_last_error(e)
}

/// Turns a result into what a foreign caller gets: the value, or nothing
/// and the text of the error as the last error.  A success forgets the last
/// error.
pub fn wrap_result<T, E: Describe>(state: &mut State, r: Result<T, E>) -> (v: Option<T>)
    ensures
        match r {
            Ok(value) => v == Some(value) && final(state)@ == Seq::<char>::empty(),
            Err(e) => v is None && final(state)@ == spec_kept(e.spec_describe()),
        },
{
    match r {
        Ok(value) => {
            state.clear_last_error();
            Some(value)
        },
        Err(e) => {
            let text = e.describe();
            state.set_last_error(text.as_str());
            None
        },
    }
}

/// Turns a result into the code that a foreign caller gets: 0 for a
/// success, which forgets the last error, and 1 for an error, whose text
/// is kept as the last error.
pub fn wrap_result_code<E: Describe>(state: &mut State, r: Result<(), E>) -> (code: i32)
    ensures
        match r {
            Ok(_) => code == TXKIT_SUCCESS && final(state)@ == Seq::<char>::empty(),
            Err(e) => code == 1 && final(state)@ == spec_kept(e.spec_describe()),
        },
{
    match r {
        Ok(_) => {
            state.clear_last_error();
            0
        },
        Err(e) => {
            let text = e.describe();
            state.set_last_error(text.as_str());
            1
        },
    }
}

} // verus!
