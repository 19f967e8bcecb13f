use vstd::prelude::*;

verus! {

/// Whether the connector service's answer to a create request means the
/// connector now exists: created, or there already.
pub fn connector_created(status: u16) -> (r: bool)
    ensures
        r == (status == 200 || status == 201 || status == 409),
{
    status == 200 || status == 201 || status == 409
}

} // verus!
