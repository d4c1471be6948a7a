//! Desktop Management Interface identification of `/sys/class/dmi/id`.
use vstd::prelude::*;
use crate::attrs::{attr_text, read_text};
use crate::error::MetricError;
use crate::kv::PairView;

verus! {


/// The firmware, board, chassis and product identification.
#[derive(Debug, Clone)]
pub struct DMI {
    pub bios_date: Option<String>,
    pub bios_release: Option<String>,
    pub bios_vendor: Option<String>,
    pub bios_version: Option<String>,
    pub board_asset_tag: Option<String>,
    pub board_name: Option<String>,
    pub board_serial: Option<String>,
    pub board_vendor: Option<String>,
    pub board_version: Option<String>,
    pub chassis_asset_tag: Option<String>,
    pub chassis_serial: Option<String>,
    pub chassis_type: Option<String>,
    pub chassis_vendor: Option<String>,
    pub chassis_version: Option<String>,
    pub product_family: Option<String>,
    pub product_name: Option<String>,
    pub product_serial: Option<String>,
    pub product_sku: Option<String>,
    pub product_uuid: Option<String>,
    pub product_version: Option<String>,
    pub system_vendor: Option<String>,
}

impl DMI {
    /// Each field holds what the attribute files give it.
    pub open spec fn read_from(&self, attrs: Seq<PairView>) -> bool {
        self.bios_date.deep_view() == attr_text(attrs, "bios_date"@)
            && self.bios_release.deep_view() == attr_text(attrs, "bios_release"@)
            && self.bios_vendor.deep_view() == attr_text(attrs, "bios_vendor"@)
            && self.bios_version.deep_view() == attr_text(attrs, "bios_version"@)
            && self.board_asset_tag.deep_view() == attr_text(attrs, "board_asset_tag"@)
            && self.board_name.deep_view() == attr_text(attrs, "board_name"@)
            && self.board_serial.deep_view() == attr_text(attrs, "board_serial"@)
            && self.board_vendor.deep_view() == attr_text(attrs, "board_vendor"@)
            && self.board_version.deep_view() == attr_text(attrs, "board_version"@)
            && self.chassis_asset_tag.deep_view() == attr_text(attrs, "chassis_asset_tag"@)
            && self.chassis_serial.deep_view() == attr_text(attrs, "chassis_serial"@)
            && self.chassis_type.deep_view() == attr_text(attrs, "chassis_type"@)
            && self.chassis_vendor.deep_view() == attr_text(attrs, "chassis_vendor"@)
            && self.chassis_version.deep_view() == attr_text(attrs, "chassis_version"@)
            && self.product_family.deep_view() == attr_text(attrs, "product_family"@)
            && self.product_name.deep_view() == attr_text(attrs, "product_name"@)
            && self.product_serial.deep_view() == attr_text(attrs, "product_serial"@)
            && self.product_sku.deep_view() == attr_text(attrs, "product_sku"@)
            && self.product_uuid.deep_view() == attr_text(attrs, "product_uuid"@)
            && self.product_version is None
            && self.system_vendor.deep_view() == attr_text(attrs, "sys_vendor"@)
    }

    /// Every field empty.
    pub open spec fn is_blank(&self) -> bool {
        self.bios_date is None
            && self.bios_release is None
            && self.bios_vendor is None
            && self.bios_version is None
            && self.board_asset_tag is None
            && self.board_name is None
            && self.board_serial is None
            && self.board_vendor is None
            && self.board_version is None
            && self.chassis_asset_tag is None
            && self.chassis_serial is None
            && self.chassis_type is None
            && self.chassis_vendor is None
            && self.chassis_version is None
            && self.product_family is None
            && self.product_name is None
            && self.product_serial is None
            && self.product_sku is None
            && self.product_uuid is None
            && self.product_version is None
            && self.system_vendor is None
    }

    pub fn new() -> (r: Self)
        ensures
            r.is_blank(),
    {
        DMI {
            bios_date: None,
            bios_release: None,
            bios_vendor: None,
            bios_version: None,
            board_asset_tag: None,
            board_name: None,
            board_serial: None,
            board_vendor: None,
            board_version: None,
            chassis_asset_tag: None,
            chassis_serial: None,
            chassis_type: None,
            chassis_vendor: None,
            chassis_version: None,
            product_family: None,
            product_name: None,
            product_serial: None,
            product_sku: None,
            product_uuid: None,
            product_version: None,
            system_vendor: None,
        }
    }

    /// The identification whose attribute files are `attrs`.
    pub fn from_attrs(attrs: &Vec<(String, String)>) -> (r: Result<Self, MetricError>)
        ensures
            r is Ok,
            r->Ok_0.read_from(attrs.deep_view()),
    {
        Ok(DMI {
            bios_date: read_text(attrs, "bios_date"),
            bios_release: read_text(attrs, "bios_release"),
            bios_vendor: read_text(attrs, "bios_vendor"),
            bios_version: read_text(attrs, "bios_version"),
            board_asset_tag: read_text(attrs, "board_asset_tag"),
            board_name: read_text(attrs, "board_name"),
            board_serial: read_text(attrs, "board_serial"),
            board_vendor: read_text(attrs, "board_vendor"),
            board_version: read_text(attrs, "board_version"),
            chassis_asset_tag: read_text(attrs, "chassis_asset_tag"),
            chassis_serial: read_text(attrs, "chassis_serial"),
            chassis_type: read_text(attrs, "chassis_type"),
            chassis_vendor: read_text(attrs, "chassis_vendor"),
            chassis_version: read_text(attrs, "chassis_version"),
            product_family: read_text(attrs, "product_family"),
            product_name: read_text(attrs, "product_name"),
            product_serial: read_text(attrs, "product_serial"),
            product_sku: read_text(attrs, "product_sku"),
            product_uuid: read_text(attrs, "product_uuid"),
            product_version: None,
            system_vendor: read_text(attrs, "sys_vendor"),
        })
    }
}

} // verus!
