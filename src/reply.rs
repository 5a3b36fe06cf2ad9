use vstd::prelude::*;

verus! {

/// What a request handler answers, independent of any HTTP library.
#[derive(Debug)]
pub enum Reply {
    /// 200, an HTML document.
    Html(String),
    /// 200, plain text.
    Text(String),
    /// 303 See Other, to the given location.
    SeeOther(String),
    /// 400, with a message for the user.
    BadRequest(String),
    /// 500, with an empty body.
    ServerError,
}

impl Reply {
    pub open spec fn spec_status(&self) -> u16 {
        match self {
            Reply::Html(_) => 200,
            Reply::Text(_) => 200,
            Reply::SeeOther(_) => 303,
            Reply::BadRequest(_) => 400,
            Reply::ServerError => 500,
        }
    }

    /// The HTTP status code of the reply.
    pub fn status(&self) -> (r: u16)
        ensures
            r == self.spec_status(),
    {
        match self {
            Reply::Html(_) => 200,
            Reply::Text(_) => 200,
            Reply::SeeOther(_) => 303,
            Reply::BadRequest(_) => 400,
            Reply::ServerError => 500,
        }
    }
}

/// The path of the home page.
pub open spec fn home_path() -> Seq<char> {
    seq!['/']
}

/// `r` sends the client back to the home page.
pub open spec fn is_redirect_home(r: Reply) -> bool {
    r is SeeOther && r->SeeOther_0@ == home_path()
}

/// A redirect to the home page.
pub fn redirect_home() -> (r: Reply)
    ensures
        is_redirect_home(r),
{
    proof {
        reveal_strlit("/");
    }
    let location = String::from_str("/");
    assert(location@ =~= home_path());
    Reply::SeeOther(location)
}

} // verus!
