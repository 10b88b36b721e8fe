//! Small extensions of the types that answers are built from.
use kube::Error as KubeError;
use vstd::prelude::*;

use crate::model::{DynamicObject, DynamicObjectView, ObjectMetaView};
use crate::text::opt_str_view;

pub mod status;

verus! {

/// Builders that take a setting only where one is given.
pub trait Optionally: Sized {
    /// Sets the status code, where one is given.
    fn optionally_status(self, _code: Option<i32>) -> (res: Self)
        default_ensures
            res == self,
    {
        self
    }

    /// Places the value in a namespace, where one is given.
    fn optionally_within(self, _ns: Option<&str>) -> (res: Self)
        default_ensures
            res == self,
    {
        self
    }
}

#[verifier::external_type_specification]
#[verifier::external_body]
pub struct ExResponseBuilder(http::response::Builder);

#[verifier::external_type_specification]
#[verifier::external_body]
pub struct ExKubeError(KubeError);

/// The builder that `http::response::Builder::status` gives back for a builder and a
/// status code.
pub uninterp spec fn builder_status(builder: http::response::Builder, code: u16) -> http::response::Builder;

/// Calls `http::response::Builder::status` with the code. The contract names what it
/// gives back; what that builder holds is the http crate's.
#[verifier::external_body]
fn builder_with_status(builder: http::response::Builder, code: u16) -> (res: http::response::Builder)
    ensures
        res == builder_status(builder, code),
{
    builder.status(code)
}

impl Optionally for http::response::Builder {
    fn optionally_status(self, code: Option<i32>) -> (res: Self)
        ensures
            code is None ==> res == self,
            code matches Some(c) ==> res == builder_status(self, c as u16),
    {
        if let Some(code) = code {
            builder_with_status(self, code as u16)
        } else {
            self
        }
    }
}

impl Optionally for DynamicObject {
    fn optionally_within(self, ns: Option<&str>) -> (res: Self)
        ensures
            res@ == match opt_str_view(ns) {
                Some(ns) => DynamicObjectView {
                    metadata: ObjectMetaView { namespace: Some(ns), ..self@.metadata },
                    ..self@
                },
                None => self@,
            },
    {
        if let Some(ns) = ns {
            self.within(ns)
        } else {
            self
        }
    }
}

} // verus!
