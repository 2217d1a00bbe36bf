use vstd::prelude::*;

verus! {

/// A telemetry event as kept in the document store: an identifier, a name and
/// an integer measurement.
#[derive(Debug, PartialEq, Eq)]
pub struct TelemetryModel {
    pub id: String,
    pub name: String,
    pub value: i32,
}

impl Clone for TelemetryModel {
    fn clone(&self) -> (res: Self)
        ensures
            res == *self,
    {
        TelemetryModel { id: self.id.clone(), name: self.name.clone(), value: self.value }
    }
}

} // verus!
