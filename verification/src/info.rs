//! The record that describes one piece of updatable firmware.

use vstd::prelude::*;

verus! {

/// One firmware-updatable entity: its display name, the version that is
/// installed and the newest version that is on offer.
#[derive(Clone, Debug, PartialEq, Eq)]
pub struct FirmwareInfo {
    pub name: String,
    pub current: String,
    pub latest: String,
}

/// The mathematical value of a [`FirmwareInfo`]: its three strings as
/// sequences of characters.
pub struct FirmwareInfoView {
    pub name: Seq<char>,
    pub current: Seq<char>,
    pub latest: Seq<char>,
}

impl View for FirmwareInfo {
    type V = FirmwareInfoView;

    open spec fn view(&self) -> FirmwareInfoView {
        FirmwareInfoView { name: self.name@, current: self.current@, latest: self.latest@ }
    }
}

impl FirmwareInfoView {
    /// An update is on offer exactly when the installed version differs from
    /// the newest one.
    pub open spec fn update_available(self) -> bool {
        self.current != self.latest
    }
}

} // verus!
