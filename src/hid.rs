//! What this library relies on from the `mirajazz` device crate.

use vstd::prelude::*;
use mirajazz::device::DeviceQuery;
use mirajazz::types::{HidDeviceInfo, ImageFormat, ImageMirroring, ImageMode, ImageRotation};

verus! {

/// `mirajazz::types::ImageMode`: a fieldless enum.
#[verifier::external_type_specification]
pub struct ExImageMode(ImageMode);

/// `mirajazz::types::ImageRotation`: a fieldless enum.
#[verifier::external_type_specification]
pub struct ExImageRotation(ImageRotation);

/// `mirajazz::types::ImageMirroring`: a fieldless enum.
#[verifier::external_type_specification]
pub struct ExImageMirroring(ImageMirroring);

/// `mirajazz::types::ImageFormat`: a struct whose fields are all public.
#[verifier::external_type_specification]
pub struct ExImageFormat(ImageFormat);

/// `mirajazz::device::DeviceQuery`: its fields are private, so it is opaque here.
#[verifier::external_type_specification]
#[verifier::external_body]
pub struct ExDeviceQuery(DeviceQuery);

/// `mirajazz::types::HidDeviceInfo` (async-hid's `DeviceInfo`), carried through unread.
#[verifier::external_type_specification]
#[verifier::external_body]
pub struct ExHidDeviceInfo(HidDeviceInfo);

/// Relies on the derived `Clone` of async-hid's `DeviceInfo` (re-exported by `mirajazz`
/// as `HidDeviceInfo`), so that records holding one can be cloned; nothing is claimed
/// of the copy.
pub assume_specification[ <HidDeviceInfo as Clone>::clone ](info: &HidDeviceInfo) -> HidDeviceInfo;

/// The query that `DeviceQuery::new` builds from a usage page, a usage id, a vendor id
/// and a product id.
pub uninterp spec fn device_query(usage_page: u16, usage_id: u16, vendor_id: u16, product_id: u16) -> DeviceQuery;

/// Relies on `mirajazz::device::DeviceQuery::new`, a `const fn` that only stores its four
/// arguments: equal arguments give equal queries.
pub assume_specification[ DeviceQuery::new ](usage_page: u16, usage_id: u16, vendor_id: u16, product_id: u16) -> (r: DeviceQuery)
    ensures
        r == device_query(usage_page, usage_id, vendor_id, product_id),
;

} // verus!
