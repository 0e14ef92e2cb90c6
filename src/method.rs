use vstd::prelude::*;

verus! {

/// The request methods the proxy distinguishes.
#[derive(Clone, Debug, PartialEq, Eq)]
pub enum Method {
    Get,
    Post,
    Put,
    Delete,
    Patch,
    /// Any other method, by its token.
    Other(String),
}

/// The view of a method: the supported ones by name, any other by its token.
pub enum MethodView {
    Get,
    Post,
    Put,
    Delete,
    Patch,
    Other(Seq<char>),
}

impl View for Method {
    type V = MethodView;

    open spec fn view(&self) -> MethodView {
        match self {
            Method::Get => MethodView::Get,
            Method::Post => MethodView::Post,
            Method::Put => MethodView::Put,
            Method::Delete => MethodView::Delete,
            Method::Patch => MethodView::Patch,
            Method::Other(s) => MethodView::Other(s@),
        }
    }
}

pub open spec fn get_token() -> Seq<char> {
    seq!['G', 'E', 'T']
}

pub open spec fn post_token() -> Seq<char> {
    seq!['P', 'O', 'S', 'T']
}

pub open spec fn put_token() -> Seq<char> {
    seq!['P', 'U', 'T']
}

pub open spec fn delete_token() -> Seq<char> {
    seq!['D', 'E', 'L', 'E', 'T', 'E']
}

pub open spec fn patch_token() -> Seq<char> {
    seq!['P', 'A', 'T', 'C', 'H']
}

/// The method that a request-line token names (matched exactly, case included).
pub open spec fn method_of_token(t: Seq<char>) -> MethodView {
    if t == get_token() {
        MethodView::Get
    } else if t == post_token() {
        MethodView::Post
    } else if t == put_token() {
        MethodView::Put
    } else if t == delete_token() {
        MethodView::Delete
    } else if t == patch_token() {
        MethodView::Patch
    } else {
        MethodView::Other(t)
    }
}

impl MethodView {
    pub open spec fn is_supported(self) -> bool {
        !(self is Other)
    }

    pub open spec fn is_get(self) -> bool {
        self is Get
    }
}

fn chars_equal(a: &[char], b: &[char]) -> (r: bool)
    ensures
        r == (a@ == b@),
{
    if a.len() != b.len() {
        return false;
    }
    let mut i: usize = 0;
    while i < a.len()
        invariant
            a@.len() == b@.len(),
            0 <= i <= a@.len(),
            a@.subrange(0, i as int) == b@.subrange(0, i as int),
        decreases a.len() - i,
    {
        if a[i] != b[i] {
            assert(a@[i as int] != b@[i as int]);
            return false;
        }
        assert(a@.subrange(0, i + 1) == a@.subrange(0, i as int).push(a@[i as int]));
        assert(b@.subrange(0, i + 1) == b@.subrange(0, i as int).push(b@[i as int]));
        i = i + 1;
    }
    assert(a@ == a@.subrange(0, a@.len() as int));
    assert(b@ == b@.subrange(0, b@.len() as int));
    true
}

impl Method {
    /// Reads a method token as it stands in a request line.
    pub fn from_token(t: &[char]) -> (r: Method)
        ensures
            r@ == method_of_token(t@),
    {
        let get = ['G', 'E', 'T'];
        let post = ['P', 'O', 'S', 'T'];
        let put = ['P', 'U', 'T'];
        let delete = ['D', 'E', 'L', 'E', 'T', 'E'];
        let patch = ['P', 'A', 'T', 'C', 'H'];
        assert(get@ == get_token());
        assert(post@ == post_token());
        assert(put@ == put_token());
        assert(delete@ == delete_token());
        assert(patch@ == patch_token());
        if chars_equal(t, get.as_slice()) {
            Method::Get
        } else if chars_equal(t, post.as_slice()) {
            Method::Post
        } else if chars_equal(t, put.as_slice()) {
            Method::Put
        } else if chars_equal(t, delete.as_slice()) {
            Method::Delete
        } else if chars_equal(t, patch.as_slice()) {
            Method::Patch
        } else {
            Method::Other(crate::text::string_from_chars(t))
        }
    }

    /// Reads a method by its name.
    pub fn from_name(name: &str) -> (r: Method)
        ensures
            r@ == method_of_token(name@),
    {
        let t = crate::text::chars_of(name);
        Method::from_token(t.as_slice())
    }

    /// True for the five methods the proxy forwards from a raw connection.
    pub fn is_supported(&self) -> (r: bool)
        ensures
            r == self@.is_supported(),
    {
        !matches!(self, Method::Other(_))
    }

    pub fn is_get(&self) -> (r: bool)
        ensures
            r == self@.is_get(),
    {
        matches!(self, Method::Get)
    }
}

} // verus!
