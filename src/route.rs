use vstd::prelude::*;

verus! {

/// The request method, as far as routing tells methods apart.
#[derive(Clone, Copy, Debug, PartialEq, Eq, Structural)]
pub enum Method {
    Get,
    Post,
    Put,
    Patch,
    Delete,
    Head,
    Options,
    Other,
}

/// The path segment that names the provisioning action.
pub open spec fn provision_segment() -> Seq<char> {
    "provision"@
}

/// Whether a request addresses the provisioning action: its second path
/// segment is `provision` and it is a POST.
pub open spec fn is_provision_route_spec(path: Seq<Seq<char>>, method: Method) -> bool {
    method == Method::Post && path.len() > 1 && path[1] == provision_segment()
}

/// Decides whether the request reaches the provisioning action.
pub fn is_provision_route(path: &Vec<String>, method: Method) -> (r: bool)
    ensures
        r == is_provision_route_spec(path.deep_view(), method),
{
    if method != Method::Post || path.len() < 2 {
        return false;
    }
    let segment = "provision".to_owned();
    path[1] == segment
}

} // verus!
