//! What the `SayHi` middleware does with each request before it hands the
//! request on: the root span it opens, the property it sets on it, the line
//! it prints and the span that the rest of the handling runs in.
use vstd::prelude::*;

verus! {

/// What the middleware does for one request.
#[derive(Debug, Clone, PartialEq, Eq)]
pub struct CallPlan {
    /// The name of the root span of the request.
    pub root_span: String,
    /// The key of the property set on the root span.
    pub property_key: String,
    /// The value of the property set on the root span.
    pub property_value: String,
    /// The line printed when the request arrives.
    pub banner: String,
    /// The span, under the root span, that the next service runs in.
    pub handle_span: String,
}

/// The name of the root span of a request: `HTTP {method} : {path}`.
pub open spec fn root_span_name(method: Seq<char>, path: Seq<char>) -> Seq<char> {
    "HTTP "@ + method + " : "@ + path
}

/// The line printed when a request arrives: `Hi from start. You requested: {path}`.
pub open spec fn banner_line(path: Seq<char>) -> Seq<char> {
    "Hi from start. You requested: "@ + path
}

/// Plans the handling of a request with the given method and path.
pub fn say_hi_call_plan(method: &str, path: &str) -> (plan: CallPlan)
    ensures
        plan.root_span@ == root_span_name(method@, path@),
        plan.property_key@ == "aa"@,
        plan.property_value@ == "bb"@,
        plan.banner@ == banner_line(path@),
        plan.handle_span@ == "Handle request"@,
{
    let mut root_span = String::from_str("HTTP ");
    root_span.append(method);
    root_span.append(" : ");
    root_span.append(path);
    let mut banner = String::from_str("Hi from start. You requested: ");
    banner.append(path);
    CallPlan {
        root_span,
        property_key: String::from_str("aa"),
        property_value: String::from_str("bb"),
        banner,
        handle_span: String::from_str("Handle request"),
    }
}

/// The root span's name ends with the requested path, and so does the banner;
/// two requests with different paths get different span names.
pub proof fn lemma_path_ends_both(method: Seq<char>, path: Seq<char>, other: Seq<char>)
    ensures
        root_span_name(method, path).subrange(
            root_span_name(method, path).len() - path.len(),
            root_span_name(method, path).len() as int,
        ) == path,
        banner_line(path).subrange(
            banner_line(path).len() - path.len(),
            banner_line(path).len() as int,
        ) == path,
        path != other ==> root_span_name(method, path) != root_span_name(method, other),
{
    let r = root_span_name(method, path);
    assert(r.subrange(r.len() - path.len(), r.len() as int) =~= path);
    let b = banner_line(path);
    assert(b.subrange(b.len() - path.len(), b.len() as int) =~= path);
    if path != other && root_span_name(method, path) == root_span_name(method, other) {
        let q = root_span_name(method, other);
        let pre = "HTTP "@ + method + " : "@;
        assert(r.subrange(0, pre.len() as int) =~= pre);
        assert(q.subrange(0, pre.len() as int) =~= pre);
        assert(r.subrange(pre.len() as int, r.len() as int) =~= path);
        assert(q.subrange(pre.len() as int, q.len() as int) =~= other);
    }
}

/// The root span's name is `HTTP `, then the method, then ` : `, then the
/// path, and nothing else; the banner is the fixed text
/// `Hi from start. You requested: ` followed by the path, and nothing else.
pub proof fn lemma_names_are_laid_out(method: Seq<char>, path: Seq<char>)
    ensures
        root_span_name(method, path).len() == 8 + method.len() + path.len(),
        root_span_name(method, path).subrange(0, 5) == seq!['H', 'T', 'T', 'P', ' '],
        root_span_name(method, path).subrange(5, 5 + method.len() as int) == method,
        root_span_name(method, path).subrange(5 + method.len() as int, 8 + method.len() as int)
            == seq![' ', ':', ' '],
        root_span_name(method, path).subrange(
            8 + method.len() as int,
            8 + method.len() + path.len() as int,
        ) == path,
        banner_line(path).len() == 30 + path.len(),
        banner_line(path).subrange(0, 30) == "Hi from start. You requested: "@,
        "Hi from start. You requested: "@.len() == 30,
        banner_line(path).subrange(30, 30 + path.len() as int) == path,
{
    reveal_strlit("HTTP ");
    reveal_strlit(" : ");
    reveal_strlit("Hi from start. You requested: ");
    let r = root_span_name(method, path);
    let m = method.len() as int;
    assert(r.subrange(0, 5) =~= seq!['H', 'T', 'T', 'P', ' ']);
    assert(r.subrange(5, 5 + m) =~= method);
    assert(r.subrange(5 + m, 8 + m) =~= seq![' ', ':', ' ']);
    assert(r.subrange(8 + m, 8 + m + path.len()) =~= path);
    let b = banner_line(path);
    assert(b.subrange(0, 30) =~= "Hi from start. You requested: "@);
    assert(b.subrange(30, 30 + path.len() as int) =~= path);
}

} // verus!
