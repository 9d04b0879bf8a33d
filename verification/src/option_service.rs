//! Lookup listings: the assembly of rows read from the persistence layer
//! into the uniform envelope.  Reading the rows is the caller's side of the
//! boundary; the envelope rules are fixed here.

use vstd::prelude::*;
use crate::envelope::ActionResult;
use crate::model::ListData;

verus! {

/// Lookup listing assembly.
pub struct OptionService;

impl OptionService {
    /// Wrap a lookup listing in the envelope: rows found make a success
    /// carrying them and the given message; an empty listing is an empty
    /// negative envelope, with no data and no error.
    pub fn collect_list(
        rows: Vec<ListData>,
        success_message: &str,
    ) -> (r: ActionResult<Vec<ListData>, String>)
        ensures
            rows@.len() == 0 ==> r.is_business_rejection() && r.data is None
                && r.message@ == Seq::<char>::empty(),
            rows@.len() > 0 ==> r.is_success() && r.message@ == success_message@
                && r.data == Some(rows),
    {
        if rows.len() == 0 {
            ActionResult { result: false, message: String::new(), data: None, error: None }
        } else {
            ActionResult {
                result: true,
                message: success_message.to_owned(),
                data: Some(rows),
                error: None,
            }
        }
    }
}

} // verus!
