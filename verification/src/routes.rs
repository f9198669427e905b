//! The route table: maps an HTTP method and path to a handler decision,
//! parsing the record identifier out of the item path.

use vstd::prelude::*;
use vstd::string::StrSliceExecFns;
use crate::ids::{parse_record_id, uuid_of};
use crate::model::RecordId;

verus! {

/// The request methods the service routes.
#[derive(Clone, Copy, PartialEq, Eq, Structural, Debug)]
pub enum Method {
    Get,
    Post,
}

/// The routing decision for one request: a handler to run, a malformed
/// identifier to reject before any connection is leased, or no route at all.
#[derive(Clone, Copy, PartialEq, Eq, Structural, Debug)]
pub enum Route {
    Liveness,
    CreateHealthCheck,
    GetHealthCheck(RecordId),
    UpdateHealthCheck(RecordId),
    MalformedId,
    NotRouted,
}

/// The path under which a single record is addressed, up to its identifier.
pub open spec fn item_path_prefix() -> Seq<char> {
    "/api/v1/health-check/"@
}

/// The route a method and path dispatch to. The liveness paths answer only
/// to GET; the collection path creates on POST; an item path reads on GET
/// and updates on POST, when its identifier parses as a UUID, and is
/// rejected as malformed otherwise.
pub open spec fn spec_route_of(method: Method, path: Seq<char>) -> Route {
    if path == "/"@ || path == "/api/v1/alive"@ {
        if method is Get {
            Route::Liveness
        } else {
            Route::NotRouted
        }
    } else if path == "/api/v1/health-check"@ {
        if method is Post {
            Route::CreateHealthCheck
        } else {
            Route::NotRouted
        }
    } else if path.len() > item_path_prefix().len() && path.subrange(
        0,
        item_path_prefix().len() as int,
    ) == item_path_prefix() {
        match uuid_of(path.subrange(item_path_prefix().len() as int, path.len() as int)) {
            Some(v) => if method is Get {
                Route::GetHealthCheck(RecordId { value: v })
            } else {
                Route::UpdateHealthCheck(RecordId { value: v })
            },
            None => Route::MalformedId,
        }
    } else {
        Route::NotRouted
    }
}

/// Character-wise string equality, equivalent to equality of the views.
fn str_eq(a: &str, b: &str) -> (r: bool)
    ensures
        r == (a@ == b@),
{
    let alen = a.unicode_len();
    let blen = b.unicode_len();
    if alen != blen {
        return false;
    }
    let mut i: usize = 0;
    while i < alen
        invariant
            alen == a@.len(),
            alen == b@.len(),
            i <= alen,
            forall|j: int| 0 <= j < i ==> a@[j] == b@[j],
        decreases alen - i,
    {
        if a.get_char(i) != b.get_char(i) {
            return false;
        }
        i += 1;
    }
    proof {
        assert(a@ =~= b@);
    }
    true
}

/// Decides the route of a request.
pub fn route_of(method: Method, path: &str) -> (r: Route)
    ensures
        r == spec_route_of(method, path@),
{
    if str_eq(path, "/") || str_eq(path, "/api/v1/alive") {
        if method == Method::Get {
            Route::Liveness
        } else {
            Route::NotRouted
        }
    } else if str_eq(path, "/api/v1/health-check") {
        if method == Method::Post {
            Route::CreateHealthCheck
        } else {
            Route::NotRouted
        }
    } else {
        let prefix = "/api/v1/health-check/";
        let prefix_len = prefix.unicode_len();
        let path_len = path.unicode_len();
        if path_len > prefix_len {
            let head = path.substring_char(0, prefix_len);
            if str_eq(head, prefix) {
                let tail = path.substring_char(prefix_len, path_len);
                match parse_record_id(tail) {
                    Some(id) => if method == Method::Get {
                        Route::GetHealthCheck(id)
                    } else {
                        Route::UpdateHealthCheck(id)
                    },
                    None => Route::MalformedId,
                }
            } else {
                Route::NotRouted
            }
        } else {
            Route::NotRouted
        }
    }
}

/// The liveness payload: the literal `ok`, with no dependency on storage.
pub fn root() -> (r: &'static str)
    ensures
        r@ == "ok"@,
{
    "ok"
}

} // verus!
