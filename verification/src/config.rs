use vstd::prelude::*;

use crate::Error;

verus! {

/// Whether the bytes form one well-formed JSON document. What
/// serde_json accepts takes pages to state, so the predicate only has
/// a name; the parser below is the sole source of truth about it.
pub uninterp spec fn json_ok(doc: Seq<u8>) -> bool;

/// Relies on serde_json::from_slice::<Value>: whether a byte slice
/// parses as a JSON document is a function of the bytes alone, and the
/// call returns Ok exactly on the well-formed ones.
#[verifier::external_body]
fn json_well_formed(doc: &[u8]) -> (r: bool)
    ensures
        r == json_ok(doc@),
{
    serde_json::from_slice::<serde_json::Value>(doc).is_ok()
}

/// A jobset configuration: a well-formed JSON document, kept byte for
/// byte as it was loaded and forwarded verbatim to the server.
#[derive(Debug)]
pub struct JobsetConfig {
    document: Vec<u8>,
}

impl View for JobsetConfig {
    type V = Seq<u8>;

    closed spec fn view(&self) -> Seq<u8> {
        self.document@
    }
}

impl JobsetConfig {
    /// A configuration is well formed when its document is JSON. Every
    /// value `load` hands out satisfies this.
    pub open spec fn wf(&self) -> bool {
        json_ok(self@)
    }

    /// The configuration document, byte for byte as it was loaded.
    pub fn document(&self) -> (r: &[u8])
        ensures
            r@ == self@,
    {
        self.document.as_slice()
    }
}

/// Checks a configuration document and wraps it. Returns the document
/// unchanged exactly when it is well-formed JSON, and the parse error
/// exactly when it is not; nothing partial is ever handed out.
pub fn load(document: Vec<u8>) -> (r: Result<JobsetConfig, Error>)
    ensures
        r is Ok <==> json_ok(document@),
        r is Ok ==> r.unwrap()@ == document@ && r.unwrap().wf(),
        r is Err ==> r.unwrap_err() == Error::ConfigParse,
{
    if json_well_formed(document.as_slice()) {
        Ok(JobsetConfig { document })
    } else {
        Err(Error::ConfigParse)
    }
}

} // verus!
