//! Cross-origin answers: an answer to a request that names its origin
//! allows that origin, with credentials.
use vstd::prelude::*;

verus! {

/// The layer that adds the cross-origin headers.
#[derive(Clone, Copy, Debug)]
pub struct DynamicCors;

/// A service wrapped by [`DynamicCors`].
#[derive(Clone)]
pub struct CorsMiddleware<S> {
    inner: S,
}

/// The value of a header: the origin as the request gave it, or a fixed text.
pub enum CorsValue<V> {
    Origin(V),
    Literal(&'static str),
}

/// The headers for an answer, as names and the texts of fixed values; the
/// origin stands as it is.
pub open spec fn allowed<V>(origin: Option<V>) -> Seq<(Seq<char>, Option<V>, Seq<char>)> {
    match origin {
        None => Seq::empty(),
        Some(o) => seq![
            ("access-control-allow-origin"@, Some(o), Seq::empty()),
            ("access-control-allow-credentials"@, None, "true"@),
            ("vary"@, None, "Origin"@),
        ],
    }
}

/// One header as [`allowed`] lists it.
pub open spec fn header_entry<V>(header: (&'static str, CorsValue<V>)) -> (
    Seq<char>,
    Option<V>,
    Seq<char>,
) {
    match header.1 {
        CorsValue::Origin(o) => (header.0@, Some(o), Seq::empty()),
        CorsValue::Literal(text) => (header.0@, None, text@),
    }
}

impl DynamicCors {
    /// Wraps a service.
    pub fn layer<S>(&self, inner: S) -> (service: CorsMiddleware<S>)
        ensures
            service.inner() == inner,
    {
        CorsMiddleware { inner }
    }

    /// The headers to set on the answer to a request with this origin, in
    /// the order in which they are set: none without an origin.
    pub fn response_headers<V>(origin: Option<V>) -> (headers: Vec<(&'static str, CorsValue<V>)>)
        ensures
            headers@.map_values(|h: (&'static str, CorsValue<V>)| header_entry(h)) == allowed(
                origin,
            ),
    {
        let mut headers: Vec<(&'static str, CorsValue<V>)> = Vec::new();
        match origin {
            Some(o) => {
                headers.push(("access-control-allow-origin", CorsValue::Origin(o)));
                headers.push(("access-control-allow-credentials", CorsValue::Literal("true")));
                headers.push(("vary", CorsValue::Literal("Origin")));
            },
            None => {},
        }
        assert(headers@.map_values(|h: (&'static str, CorsValue<V>)| header_entry(h)) =~= allowed(
            origin,
        ));
        headers
    }
}

impl<S> CorsMiddleware<S> {
    /// The wrapped service.
    pub closed spec fn inner(&self) -> S {
        self.inner
    }

    /// The wrapped service, to read from.
    pub fn get_ref(&self) -> (inner: &S)
        ensures
            *inner == self.inner(),
    {
        &self.inner
    }

    /// The wrapped service, to call.
    pub fn get_mut(&mut self) -> (inner: &mut S)
        ensures
            *inner == old(self).inner(),
            final(self).inner() == *final(inner),
    {
        &mut self.inner
    }
}

} // verus!
