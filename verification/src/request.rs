use vstd::prelude::*;

verus! {

/// The verb of an inbound request.
#[derive(Clone, Copy, Debug, PartialEq, Eq, Structural)]
pub enum Method {
    Get,
    Post,
    Put,
    Delete,
}

/// One named value of a request channel.
#[derive(Debug, PartialEq, Eq)]
pub struct Param {
    pub name: String,
    pub value: String,
}

impl Clone for Param {
    fn clone(&self) -> (r: Self)
        ensures
            r == *self,
    {
        Param { name: self.name.clone(), value: self.value.clone() }
    }
}

impl Param {
    /// The parameter `name` with the value `value`.
    pub fn new(name: &str, value: &str) -> (r: Param)
        ensures
            r.name@ == name@,
            r.value@ == value@,
    {
        Param { name: name.to_owned(), value: value.to_owned() }
    }
}

/// What the transport hands to the pipeline: the method and the four
/// channels that may carry credential material.
#[derive(Debug, PartialEq, Eq)]
pub struct RawRequest {
    pub method: Method,
    pub path: Vec<Param>,
    pub query: Vec<Param>,
    pub headers: Vec<Param>,
    pub body: Vec<Param>,
}

impl RawRequest {
    /// A request with the given method and all four channels empty.
    pub fn new(method: Method) -> (r: RawRequest)
        ensures
            r.method == method,
            r.path@ == Seq::<Param>::empty(),
            r.query@ == Seq::<Param>::empty(),
            r.headers@ == Seq::<Param>::empty(),
            r.body@ == Seq::<Param>::empty(),
    {
        RawRequest {
            method,
            path: Vec::new(),
            query: Vec::new(),
            headers: Vec::new(),
            body: Vec::new(),
        }
    }
}

/// The value of the first parameter called `name` at or after index `from`.
pub open spec fn value_from(params: Seq<Param>, name: Seq<char>, from: int) -> Option<Seq<char>>
    decreases params.len() - from,
{
    if from < 0 || from >= params.len() {
        None
    } else if params[from].name@ == name {
        Some(params[from].value@)
    } else {
        value_from(params, name, from + 1)
    }
}

/// The value of the first parameter called `name`, if there is one.
pub open spec fn value_of(params: Seq<Param>, name: Seq<char>) -> Option<Seq<char>> {
    value_from(params, name, 0)
}

/// Whether two optional texts read the same.
pub open spec fn same_text(found: Option<&String>, expected: Option<Seq<char>>) -> bool {
    match found {
        Some(s) => expected == Some(s@),
        None => expected.is_none(),
    }
}

/// Finds the first parameter called `name` and hands out its value.
pub fn lookup<'a>(params: &'a Vec<Param>, name: &str) -> (r: Option<&'a String>)
    ensures
        same_text(r, value_of(params@, name@)),
{
    let wanted: String = name.to_owned();
    let mut i: usize = 0;
    while i < params.len()
        invariant
            i <= params.len(),
            wanted@ == name@,
            value_of(params@, name@) == value_from(params@, name@, i as int),
        decreases params.len() - i,
    {
        if params[i].name == wanted {
            return Some(&params[i].value);
        }
        i = i + 1;
    }
    None
}

} // verus!
