//! Showing short information about an app.

use vstd::prelude::*;

use crate::app_util::AppIdentOpts;

verus! {

/// Show short information about an app.
///
/// Use `app get` to get more detailed information.
#[derive(Debug, Clone)]
pub struct CmdAppInfo {
    /// Which app to show information about.
    pub ident: AppIdentOpts,
}

} // verus!
