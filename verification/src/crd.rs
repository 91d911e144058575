use vstd::prelude::*;

verus! {

/// The custom-resource shape under which a single SRV record can be handed
/// to the controller: the record's name, and whether TXT data should be
/// carried along with it.
#[derive(Clone, Debug, PartialEq, Eq)]
pub struct SRVResolver {
    pub srv_record: String,
    pub include_txt: bool,
}

} // verus!
