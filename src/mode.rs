use vstd::prelude::*;

verus! {

/// How the response body of a call is materialized.
#[derive(Debug, Clone, Copy, PartialEq, Eq, Structural)]
pub enum ResponseMode {
    /// The body is fully buffered before it is handed back.
    Block,
    /// The body is handed back as a lazily consumed sequence of chunks.
    Stream,
}

/// The wire string of a response mode, as sent in the `response_mode` field.
pub open spec fn wire_of(m: ResponseMode) -> Seq<char> {
    match m {
        ResponseMode::Block => "blocking"@,
        ResponseMode::Stream => "streaming"@,
    }
}

/// The response mode that a wire string names, if any.
pub open spec fn mode_of_wire(s: Seq<char>) -> Option<ResponseMode> {
    if s == "blocking"@ {
        Some(ResponseMode::Block)
    } else if s == "streaming"@ {
        Some(ResponseMode::Stream)
    } else {
        None
    }
}

/// Whether two strings hold the same characters.
pub fn same_text(a: &str, b: &str) -> (r: bool)
    ensures
        r == (a@ == b@),
{
    let n = a.unicode_len();
    if n != b.unicode_len() {
        return false;
    }
    let mut i: usize = 0;
    while i < n
        invariant
            n == a@.len(),
            n == b@.len(),
            i <= n,
            forall|j: int| 0 <= j < i ==> a@[j] == b@[j],
        decreases n - i,
    {
        if a.get_char(i) != b.get_char(i) {
            return false;
        }
        i = i + 1;
    }
    assert(a@ =~= b@);
    true
}

impl ResponseMode {
    /// The wire string of this mode: `"blocking"` or `"streaming"`.
    pub fn as_str(&self) -> (r: &'static str)
        ensures
            r@ == wire_of(*self),
    {
        match self {
            ResponseMode::Block => "blocking",
            ResponseMode::Stream => "streaming",
        }
    }

    /// The wire string of this mode, owned.
    pub fn to_string(&self) -> (r: String)
        ensures
            r@ == wire_of(*self),
    {
        self.as_str().to_owned()
    }

    /// Whether the body of a call in this mode is consumed as a stream.
    pub fn is_streaming(&self) -> (r: bool)
        ensures
            r == (*self == ResponseMode::Stream),
    {
        match self {
            ResponseMode::Block => false,
            ResponseMode::Stream => true,
        }
    }

    /// Reads a mode back from its wire string; any other string gives `None`.
    pub fn from_wire(s: &str) -> (r: Option<ResponseMode>)
        ensures
            r == mode_of_wire(s@),
    {
        if same_text(s, "blocking") {
            Some(ResponseMode::Block)
        } else if same_text(s, "streaming") {
            Some(ResponseMode::Stream)
        } else {
            None
        }
    }
}

/// Writing a mode as its wire string and reading it back yields the same mode.
pub proof fn lemma_wire_round_trip(m: ResponseMode)
    ensures
        mode_of_wire(wire_of(m)) == Some(m),
{
    reveal_strlit("blocking");
    reveal_strlit("streaming");
    assert("blocking"@ != "streaming"@) by {
        assert("blocking"@.len() != "streaming"@.len());
    }
}

} // verus!
