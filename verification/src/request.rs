//! A request as a plain value: what is to be sent, composed before anything
//! touches the network.

use vstd::prelude::*;

verus! {

/// The HTTP methods that the API is called with.
#[derive(Clone, Copy, Debug, PartialEq, Eq, Structural)]
pub enum Method {
    Get,
    Put,
    Post,
    Delete,
}

/// One request, ready to be sent.
pub struct Request {
    method: Method,
    url: String,
    authorization: String,
    query_params: Vec<(String, Option<String>)>,
    form: Option<Vec<(String, String)>>,
}

/// What a [`Request`] says.
pub struct RequestView {
    /// The HTTP method.
    pub method: Method,
    /// The full URL, without the query string.
    pub url: Seq<char>,
    /// The value of the `Authorization` header.
    pub authorization: Seq<char>,
    /// The query parameters in the order they were given, each with its
    /// value if it has one.
    pub query_params: Seq<(Seq<char>, Option<Seq<char>>)>,
    /// The fields of the form-encoded body in order, if the request has a
    /// body.
    pub form: Option<Seq<(Seq<char>, Seq<char>)>>,
}

/// The key/value pairs that make up the query string: the parameters that
/// have a value, in order. A parameter without a value leaves no trace.
pub open spec fn present_pairs(params: Seq<(Seq<char>, Option<Seq<char>>)>) -> Seq<
    (Seq<char>, Seq<char>),
>
    decreases params.len(),
{
    if params.len() == 0 {
        seq![]
    } else {
        let earlier = present_pairs(params.drop_last());
        match params.last().1 {
            Some(value) => earlier.push((params.last().0, value)),
            None => earlier,
        }
    }
}

impl View for Request {
    type V = RequestView;

    closed spec fn view(&self) -> RequestView {
        RequestView {
            method: self.method,
            url: self.url@,
            authorization: self.authorization@,
            query_params: self.query_params.deep_view(),
            form: self.form.deep_view(),
        }
    }
}

impl RequestView {
    /// The key/value pairs of the query string.
    pub open spec fn query_pairs(self) -> Seq<(Seq<char>, Seq<char>)> {
        present_pairs(self.query_params)
    }

    /// This request with one more query parameter.
    pub open spec fn with_param(self, key: Seq<char>, value: Option<Seq<char>>) -> RequestView {
        RequestView { query_params: self.query_params.push((key, value)), ..self }
    }

    /// This request with `fields` as its form body.
    pub open spec fn with_form(self, fields: Seq<(Seq<char>, Seq<char>)>) -> RequestView {
        RequestView { form: Some(fields), ..self }
    }
}

/// The request that is not composed further yet: no query parameter and no
/// body.
pub open spec fn bare_request(method: Method, url: Seq<char>, authorization: Seq<char>) -> RequestView {
    RequestView { method, url, authorization, query_params: seq![], form: None }
}

impl Request {
    /// A request with no query parameter and no body.
    pub fn new(method: Method, url: String, authorization: String) -> (request: Request)
        ensures
            request@ == bare_request(method, url@, authorization@),
    {
        let request = Request { method, url, authorization, query_params: Vec::new(), form: None };
        assert(request.query_params.deep_view() =~= seq![]);
        request
    }

    /// Appends a query parameter. Whether it reaches the query string is
    /// decided by its value: see [`Request::query_pairs`].
    pub fn query(self, key: &str, value: Option<String>) -> (request: Request)
        ensures
            request@ == self@.with_param(key@, value.deep_view()),
    {
        let mut request = self;
        let ghost before = request.query_params.deep_view();
        request.query_params.push((String::from_str(key), value));
        assert(request.query_params.deep_view() =~= before.push((key@, value.deep_view())));
        request
    }

    /// Sets the form-encoded body, replacing an earlier one.
    pub fn form(self, fields: Vec<(String, String)>) -> (request: Request)
        ensures
            request@ == self@.with_form(fields.deep_view()),
    {
        let mut request = self;
        request.form = Some(fields);
        request
    }

    /// The HTTP method.
    pub fn method(&self) -> (method: Method)
        ensures
            method == self@.method,
    {
        self.method
    }

    /// The full URL, without the query string.
    pub fn url(&self) -> (url: &str)
        ensures
            url@ == self@.url,
    {
        self.url.as_str()
    }

    /// The value of the `Authorization` header.
    pub fn authorization(&self) -> (value: &str)
        ensures
            value@ == self@.authorization,
    {
        self.authorization.as_str()
    }

    /// The query parameters as they were given.
    pub fn query_params(&self) -> (params: &Vec<(String, Option<String>)>)
        ensures
            params.deep_view() == self@.query_params,
    {
        &self.query_params
    }

    /// The fields of the form-encoded body, if the request has a body.
    pub fn form_fields(&self) -> (fields: Option<&Vec<(String, String)>>)
        ensures
            fields.deep_view() == self@.form,
    {
        self.form.as_ref()
    }

    /// The key/value pairs of the query string: each parameter that has a
    /// value, in order. A parameter without a value is left out altogether.
    pub fn query_pairs(&self) -> (pairs: Vec<(String, String)>)
        ensures
            pairs.deep_view() == self@.query_pairs(),
    {
        present(&self.query_params)
    }
}

/// The pairs of the parameters that have a value, in order. A parameter
/// without a value is left out altogether: it is never written as an empty
/// value.
pub fn present(params: &Vec<(String, Option<String>)>) -> (pairs: Vec<(String, String)>)
    ensures
        pairs.deep_view() == present_pairs(params.deep_view()),
{
    let ghost all = params.deep_view();
    let mut pairs: Vec<(String, String)> = Vec::new();
    let mut i: usize = 0;
    while i < params.len()
        invariant
            i <= params.len(),
            all == params.deep_view(),
            pairs.deep_view() == present_pairs(all.take(i as int)),
        decreases params.len() - i,
    {
        assert(all.take(i as int + 1).drop_last() =~= all.take(i as int));
        let param = &params[i];
        match &param.1 {
            Some(value) => {
                pairs.push((param.0.clone(), value.clone()));
            },
            None => {},
        }
        i += 1;
    }
    assert(all.take(i as int) =~= all);
    pairs
}

/// Every query pair comes from a parameter that has that key and that value.
pub proof fn lemma_present_pairs_origin(params: Seq<(Seq<char>, Option<Seq<char>>)>, j: int)
    requires
        0 <= j < present_pairs(params).len(),
    ensures
        exists|i: int|
            0 <= i < params.len() && #[trigger] params[i] == (
                present_pairs(params)[j].0,
                Some(present_pairs(params)[j].1),
            ),
    decreases params.len(),
{
    let earlier = present_pairs(params.drop_last());
    if j < earlier.len() {
        lemma_present_pairs_origin(params.drop_last(), j);
        let i = choose|i: int|
            0 <= i < params.drop_last().len() && #[trigger] params.drop_last()[i] == (
                earlier[j].0,
                Some(earlier[j].1),
            );
        assert(params[i] == params.drop_last()[i]);
    } else {
        assert(params[params.len() - 1] == params.last());
    }
}

/// A parameter that is left unset is omitted: where no parameter named
/// `key` has a value, the query string holds no pair for `key`, not even
/// one with an empty value.
pub proof fn lemma_unset_parameter_is_omitted(
    params: Seq<(Seq<char>, Option<Seq<char>>)>,
    key: Seq<char>,
)
    requires
        forall|i: int| 0 <= i < params.len() && (#[trigger] params[i]).0 == key ==> params[i].1 is None,
    ensures
        forall|j: int| 0 <= j < present_pairs(params).len() ==> (#[trigger] present_pairs(params)[j]).0 != key,
{
    assert forall|j: int| 0 <= j < present_pairs(params).len() implies (#[trigger] present_pairs(
        params,
    )[j]).0 != key by {
        lemma_present_pairs_origin(params, j);
    }
}

/// A parameter that is set is sent: each parameter with a value has its
/// pair in the query string, also where the value is the empty text. To
/// leave a parameter out and to send it empty are two different things.
pub proof fn lemma_set_parameter_is_sent(params: Seq<(Seq<char>, Option<Seq<char>>)>, i: int)
    requires
        0 <= i < params.len(),
        params[i].1 is Some,
    ensures
        present_pairs(params).contains((params[i].0, params[i].1->0)),
    decreases params.len(),
{
    let earlier = present_pairs(params.drop_last());
    if i == params.len() - 1 {
        let pairs = present_pairs(params);
        assert(pairs[pairs.len() - 1] == (params[i].0, params[i].1->0));
    } else {
        lemma_set_parameter_is_sent(params.drop_last(), i);
        let j = choose|j: int| 0 <= j < earlier.len() && earlier[j] == (params[i].0, params[i].1->0);
        assert(present_pairs(params)[j] == earlier[j]);
    }
}

} // verus!
