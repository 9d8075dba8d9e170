//! Settings: the labels under which new badge-ins are filed.

use vstd::prelude::*;

verus! {

/// The office of an ordinary badge-in and the label of a flex credit.
#[derive(Clone, Debug)]
pub struct AppSettings {
    pub default_office: String,
    pub flex_credit: String,
}

impl Default for AppSettings {
    /// "McLean, VA" and "Flex Credit".
    fn default() -> (r: AppSettings)
        ensures
            r.default_office@ == "McLean, VA"@,
            r.flex_credit@ == "Flex Credit"@,
    {
        AppSettings {
            default_office: "McLean, VA".to_owned(),
            flex_credit: "Flex Credit".to_owned(),
        }
    }
}

impl AppSettings {
    /// A copy of the settings.
    pub fn duplicate(&self) -> (r: AppSettings)
        ensures
            r == *self,
    {
        AppSettings {
            default_office: self.default_office.clone(),
            flex_credit: self.flex_credit.clone(),
        }
    }
}

} // verus!
