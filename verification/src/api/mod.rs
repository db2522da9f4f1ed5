//! The remote REST API: the record types it serves, the classification of
//! its failures, and the verified construction of its request URLs.  The
//! transport itself — sending the request and decoding the response — is
//! left to the binary.

use vstd::prelude::*;
use vstd::string::StringExecFns;
use crate::clockify::Config;
use crate::error::Error;
use crate::text::{dec_str, u32_to_string};

pub mod common;
pub mod project;
pub mod tag;
pub mod task;
pub mod time_entry;
pub mod user;
pub mod workspace;

verus! {

/// The query parameters of a request, in the order they are appended.
pub type EndpointParameters = Vec<(String, ParameterValue)>;

/// A query parameter value.
#[derive(Debug, Clone)]
pub enum ParameterValue {
    String(String),
    Boolean(bool),
    Integer(u32),
}

/// The query-string text of a parameter value.
pub open spec fn value_text(v: ParameterValue) -> Seq<char> {
    match v {
        ParameterValue::String(s) => s@,
        ParameterValue::Boolean(b) => if b {
            "true"@
        } else {
            "false"@
        },
        ParameterValue::Integer(i) => dec_str(i as nat),
    }
}

impl ParameterValue {
    /// Renders the value as it appears in a query string.
    pub fn render(&self) -> (r: String)
        ensures
            r@ == value_text(*self),
    {
        match self {
            ParameterValue::String(s) => s.clone(),
            ParameterValue::Boolean(b) => {
                if *b {
                    "true".to_owned()
                } else {
                    "false".to_owned()
                }
            },
            ParameterValue::Integer(i) => u32_to_string(*i),
        }
    }
}

/// How the remote service's failures are classified: the three telling
/// status codes, and everything else with its message.
#[derive(Debug, Clone, PartialEq, Eq)]
pub enum EndpointError {
    Unauthorized,
    Forbidden,
    NotFound,
    Unknown(String),
}

impl EndpointError {
    /// Classifies a transport failure by its HTTP status code, keeping
    /// the failure text for the codes that are not singled out.
    pub fn from_status(status: Option<u16>, detail: String) -> (r: EndpointError)
        ensures
            status == Some(401u16) ==> r is Unauthorized,
            status == Some(403u16) ==> r is Forbidden,
            status == Some(404u16) ==> r is NotFound,
            (match status {
                Option::Some(s) => s != 401 && s != 403 && s != 404,
                Option::None => true,
            }) ==> (r matches EndpointError::Unknown(d) && d == detail),
    {
        match status {
            Some(401u16) => EndpointError::Unauthorized,
            Some(403u16) => EndpointError::Forbidden,
            Some(404u16) => EndpointError::NotFound,
            _ => EndpointError::Unknown(detail),
        }
    }
}

/// A record type served by the remote API under a URL of its own.
pub trait EndPoint {
    /// The path of the record type's collection under the base URL, or
    /// the configuration that is missing to name it.
    spec fn spec_endpoint(config: Config) -> Result<Seq<char>, Error>;

    /// The path of the record type's collection under the base URL.
    fn endpoint(config: &Config) -> (r: Result<String, Error>)
        ensures
            match (r, Self::spec_endpoint(*config)) {
                (Result::Ok(s), Result::Ok(v)) => s@ == v,
                (Result::Err(e1), Result::Err(e2)) => e1 == e2,
                _ => false,
            },
    ;
}

/// The query-string text of a parameter list: `&key=value` for each pair,
/// in order.
pub open spec fn params_text(ps: Seq<(String, ParameterValue)>) -> Seq<char>
    decreases ps.len(),
{
    if ps.len() == 0 {
        Seq::empty()
    } else {
        params_text(ps.drop_last()) + "&"@ + ps.last().0@ + "="@ + value_text(ps.last().1)
    }
}

/// Renders a parameter list as query-string text.
pub fn add_params(params: &EndpointParameters) -> (r: String)
    ensures
        r@ == params_text(params@),
{
    let mut r = String::new();
    let mut i: usize = 0;
    assert(r@ =~= params_text(params@.take(0)));
    while i < params.len()
        invariant
            i <= params@.len(),
            r@ == params_text(params@.take(i as int)),
        decreases params@.len() - i,
    {
        r.append("&");
        r.append(params[i].0.as_str());
        r.append("=");
        let v = params[i].1.render();
        r.append(v.as_str());
        proof {
            assert(params@.take(i as int + 1).drop_last() =~= params@.take(i as int));
            assert(params@.take(i as int + 1).last() == params@[i as int]);
        }
        i = i + 1;
    }
    proof {
        assert(params@.take(params@.len() as int) =~= params@);
    }
    r
}

/// The full request URL of a record type: base URL, collection path, an
/// optional record id, and the query parameters.
pub open spec fn spec_url<E: EndPoint>(
    config: Config,
    id: Option<Seq<char>>,
    params: Option<Seq<(String, ParameterValue)>>,
) -> Result<Seq<char>, Error> {
    match E::spec_endpoint(config) {
        Result::Err(e) => Result::Err(e),
        Result::Ok(ep) => Result::Ok(
            config.base_url@ + ep + (match id {
                Option::Some(i) => "/"@ + i,
                Option::None => Seq::empty(),
            }) + (match params {
                Option::Some(p) => params_text(p),
                Option::None => Seq::empty(),
            }),
        ),
    }
}

/// Builds the full request URL of record type `E`.
pub fn format_url<E: EndPoint>(
    id: Option<&str>,
    params: Option<&EndpointParameters>,
    config: &Config,
) -> (r: Result<String, Error>)
    ensures
        match (
            r,
            spec_url::<E>(
                *config,
                match id {
                    Option::Some(i) => Option::Some(i@),
                    Option::None => Option::None,
                },
                match params {
                    Option::Some(p) => Option::Some(p@),
                    Option::None => Option::None,
                },
            ),
        ) {
            (Result::Ok(u), Result::Ok(v)) => u@ == v,
            (Result::Err(e1), Result::Err(e2)) => e1 == e2,
            _ => false,
        },
{
    let ep = match E::endpoint(config) {
        Ok(ep) => ep,
        Err(e) => {
            return Err(e);
        },
    };
    let mut url = config.base_url.clone();
    url.append(ep.as_str());
    if let Some(i) = id {
        url.append("/");
        url.append(i);
    }
    if let Some(p) = params {
        let q = add_params(p);
        url.append(q.as_str());
    }
    proof {
        if id is None {
            assert(url@ == config.base_url@ + E::spec_endpoint(*config).unwrap()
                + Seq::<char>::empty() + (match params {
                Option::Some(p) => params_text(p@),
                Option::None => Seq::<char>::empty(),
            })) by {
                assert(config.base_url@ + E::spec_endpoint(*config).unwrap() + Seq::<
                    char,
                >::empty() =~= config.base_url@ + E::spec_endpoint(*config).unwrap());
                if params is None {
                    assert(config.base_url@ + E::spec_endpoint(*config).unwrap() + Seq::<
                        char,
                    >::empty() + Seq::<char>::empty() =~= config.base_url@ + E::spec_endpoint(
                        *config,
                    ).unwrap());
                }
            }
        } else {
            if params is None {
                assert(config.base_url@ + E::spec_endpoint(*config).unwrap() + ("/"@
                    + id.unwrap()@) + Seq::<char>::empty() =~= config.base_url@
                    + E::spec_endpoint(*config).unwrap() + "/"@ + id.unwrap()@);
            } else {
                assert(config.base_url@ + E::spec_endpoint(*config).unwrap() + ("/"@
                    + id.unwrap()@) + params_text(params.unwrap()@) =~= config.base_url@
                    + E::spec_endpoint(*config).unwrap() + "/"@ + id.unwrap()@ + params_text(
                    params.unwrap()@,
                ));
            }
        }
    }
    Ok(url)
}

} // verus!
