//! Windows over a stream, in the form in which the server reads them.
use crate::text::{blank, decimal, decimal_text};
use vstd::prelude::*;

verus! {

/// The specification of a window. It is never blank.
#[derive(Debug, PartialEq, Eq, Hash)]
pub struct WindowSpec {
    spec: String,
}

impl View for WindowSpec {
    type V = Seq<char>;

    closed spec fn view(&self) -> Seq<char> {
        self.spec@
    }
}

impl Clone for WindowSpec {
    fn clone(&self) -> (r: Self)
        ensures
            r@ == self@,
    {
        proof {
            use_type_invariant(self);
        }
        WindowSpec { spec: self.spec.clone() }
    }
}

impl WindowSpec {
    #[verifier::type_invariant]
    spec fn wf(self) -> bool {
        !blank(self.spec@)
    }

    /// The window that `spec` describes.
    pub fn new(spec: &str) -> (r: Self)
        requires
            !blank(spec@),
        ensures
            r@ == spec@,
    {
        WindowSpec { spec: spec.to_owned() }
    }

    /// The text that goes over the wire.
    pub fn spec(&self) -> (r: &str)
        ensures
            r@ == self@,
            !blank(r@),
    {
        proof {
            use_type_invariant(self);
        }
        self.spec.as_str()
    }

    /// The text that goes over the wire.
    pub fn text(&self) -> (r: String)
        ensures
            r@ == self@,
    {
        self.spec.clone()
    }
}

/// A text with a character that is no white space is not blank.
proof fn lemma_not_blank(s: Seq<char>, i: int)
    requires
        0 <= i < s.len(),
        'a' <= s[i] <= 'z',
    ensures
        !blank(s),
{
}

/// Fixed windows that do not overlap: `tumbling(size)`.
pub fn tumbling(size: &str) -> (r: WindowSpec)
    requires
        !blank(size@),
    ensures
        r@ == "tumbling("@ + size@ + ")"@,
{
    let text = "tumbling(".to_owned().concat(size).concat(")");
    proof {
        reveal_strlit("tumbling(");
        lemma_not_blank(text@, 0);
    }
    WindowSpec::new(text.as_str())
}

/// Windows that overlap: `sliding(size,slide)`.
pub fn sliding(size: &str, slide: &str) -> (r: WindowSpec)
    requires
        !blank(size@),
        !blank(slide@),
    ensures
        r@ == "sliding("@ + size@ + ","@ + slide@ + ")"@,
{
    let text = "sliding(".to_owned().concat(size).concat(",").concat(slide).concat(")");
    proof {
        reveal_strlit("sliding(");
        lemma_not_blank(text@, 0);
    }
    WindowSpec::new(text.as_str())
}

/// Windows that inactivity closes: `session(timeout)`.
pub fn session(timeout: &str) -> (r: WindowSpec)
    requires
        !blank(timeout@),
    ensures
        r@ == "session("@ + timeout@ + ")"@,
{
    let text = "session(".to_owned().concat(timeout).concat(")");
    proof {
        reveal_strlit("session(");
        lemma_not_blank(text@, 0);
    }
    WindowSpec::new(text.as_str())
}

/// The one window without bounds: `global`.
pub fn global() -> (r: WindowSpec)
    ensures
        r@ == "global"@,
{
    proof {
        reveal_strlit("global");
        lemma_not_blank("global"@, 0);
    }
    WindowSpec::new("global")
}

/// Windows of `n` events: `count(n)`.
pub fn count(n: u64) -> (r: WindowSpec)
    requires
        n > 0,
    ensures
        r@ == "count("@ + decimal(n as nat) + ")"@,
{
    let text = "count(".to_owned().concat(decimal_text(n).as_str()).concat(")");
    proof {
        reveal_strlit("count(");
        lemma_not_blank(text@, 0);
    }
    WindowSpec::new(text.as_str())
}

/// Windows of `size` events, one every `slide` events: `count_sliding(size,slide)`.
pub fn count_sliding(size: u64, slide: u64) -> (r: WindowSpec)
    requires
        size > 0,
        slide > 0,
    ensures
        r@ == "count_sliding("@ + decimal(size as nat) + ","@ + decimal(slide as nat) + ")"@,
{
    let text = "count_sliding(".to_owned().concat(decimal_text(size).as_str()).concat(",").concat(
        decimal_text(slide).as_str(),
    ).concat(")");
    proof {
        reveal_strlit("count_sliding(");
        lemma_not_blank(text@, 0);
    }
    WindowSpec::new(text.as_str())
}

} // verus!
