use vstd::prelude::*;
use mirajazz::device::DeviceQuery;
use mirajazz::types::{HidDeviceInfo, ImageFormat, ImageMirroring, ImageMode, ImageRotation};
use crate::hid::device_query;

verus! {

/// Must be unique among all plugins, two characters long, and match the plugin
/// manifest's `DeviceNamespace` field.
pub const DEVICE_NAMESPACE: &'static str = "n4";

pub const ROW_COUNT: usize = 2;
pub const COL_COUNT: usize = 5;
pub const KEY_COUNT: usize = 15;
pub const ENCODER_COUNT: usize = 4;
/// Stream Deck Plus
pub const DEVICE_TYPE: u8 = 7;

/// Every supported hardware model.
#[derive(Debug, Clone, Copy, PartialEq, Eq, Structural)]
pub enum Kind {
    Akp05E,
    Akp05EPro,
    N4E,
    N4,
    N4ProE,
    N4Pro,
    VsdN4Pro,
    MsdPro,
    Cn003,
}

pub const VSDINSIDE_VID: u16 = 0x5548;
pub const VSD_N4_PRO_PID: u16 = 0x1023;

pub const AJAZZ_VID: u16 = 0x0300;
pub const AKP05E_PID: u16 = 0x3004;
pub const AKP05E_PRO_PID: u16 = 0x3013;

pub const MIRABOX_N4E_VID: u16 = 0x6603;
pub const N4E_PID: u16 = 0x1007;

pub const MIRABOX_N4_VID: u16 = 0x6602;
pub const N4_PID: u16 = 0x1001;

pub const MIRABOX_N4_PRO_E_VID: u16 = 0x5548;
pub const N4_PRO_E_PID: u16 = 0x1021;

pub const MIRABOX_N4_PRO_VID: u16 = 0x5548;
pub const N4_PRO_PID: u16 = 0x1008;

pub const MARS_GAMING_VID: u16 = 0x0B00;
pub const MSD_PRO_PID: u16 = 0x1003;

pub const SOOMFON_VID: u16 = 0x1500;
pub const CN003_PID: u16 = 0x3002;

/// Every query of this device family uses this usage page.
pub const QUERY_USAGE_PAGE: u16 = 65440;
/// Every query of this device family uses this usage id.
pub const QUERY_USAGE_ID: u16 = 1;

/// The identifier table: the (vendor id, product id) pair of each model.
pub open spec fn ids_of(k: Kind) -> (u16, u16) {
    match k {
        Kind::Akp05E => (AJAZZ_VID, AKP05E_PID),
        Kind::Akp05EPro => (AJAZZ_VID, AKP05E_PRO_PID),
        Kind::N4E => (MIRABOX_N4E_VID, N4E_PID),
        Kind::N4 => (MIRABOX_N4_VID, N4_PID),
        Kind::N4ProE => (MIRABOX_N4_PRO_E_VID, N4_PRO_E_PID),
        Kind::N4Pro => (MIRABOX_N4_PRO_VID, N4_PRO_PID),
        Kind::VsdN4Pro => (VSDINSIDE_VID, VSD_N4_PRO_PID),
        Kind::MsdPro => (MARS_GAMING_VID, MSD_PRO_PID),
        Kind::Cn003 => (SOOMFON_VID, CN003_PID),
    }
}

/// The model whose identifier pair is `(vid, pid)`, if there is one.
pub open spec fn kind_for(vid: u16, pid: u16) -> Option<Kind> {
    if exists|k: Kind| #[trigger] ids_of(k) == (vid, pid) {
        Some(choose|k: Kind| #[trigger] ids_of(k) == (vid, pid))
    } else {
        None
    }
}

/// No two models share an identifier pair.
pub proof fn lemma_ids_distinct(a: Kind, b: Kind)
    ensures
        ids_of(a) == ids_of(b) ==> a == b,
{
}

/// Every pair of the identifier table resolves to the model of its row.
pub proof fn lemma_known_pair_resolves(k: Kind)
    ensures
        kind_for(ids_of(k).0, ids_of(k).1) == Some(k),
{
    let (vid, pid) = ids_of(k);
    assert(ids_of(k) == (vid, pid));
    let c = choose|c: Kind| #[trigger] ids_of(c) == (vid, pid);
    lemma_ids_distinct(c, k);
}

/// A pair that no row of the identifier table holds resolves to nothing,
/// whether or not its vendor id is a known one.
pub proof fn lemma_unknown_pair_absent(vid: u16, pid: u16)
    requires
        forall|k: Kind| #[trigger] ids_of(k) != (vid, pid),
    ensures
        kind_for(vid, pid) is None,
{
}

impl Kind {
    /// Matches a device's vendor and product ids to its model.
    pub fn from_vid_pid(vid: u16, pid: u16) -> (r: Option<Self>)
        ensures
            r == kind_for(vid, pid),
    {
        // The three brands below share one vendor id; the product id alone tells them apart.
        assert(MIRABOX_N4_PRO_VID == VSDINSIDE_VID);
        assert(MIRABOX_N4_PRO_VID == MIRABOX_N4_PRO_E_VID);
        let r = match vid {
            AJAZZ_VID => match pid {
                AKP05E_PID => Some(Kind::Akp05E),
                AKP05E_PRO_PID => Some(Kind::Akp05EPro),
                _ => None,
            },
            MIRABOX_N4E_VID => match pid {
                N4E_PID => Some(Kind::N4E),
                _ => None,
            },
            MIRABOX_N4_VID => match pid {
                N4_PID => Some(Kind::N4),
                _ => None,
            },
            MIRABOX_N4_PRO_VID => match pid {
                VSD_N4_PRO_PID => Some(Kind::VsdN4Pro),
                N4_PRO_PID => Some(Kind::N4Pro),
                N4_PRO_E_PID => Some(Kind::N4ProE),
                _ => None,
            },
            MARS_GAMING_VID => match pid {
                MSD_PRO_PID => Some(Kind::MsdPro),
                _ => None,
            },
            SOOMFON_VID => match pid {
                CN003_PID => Some(Kind::Cn003),
                _ => None,
            },
            _ => None,
        };
        proof {
            match r {
                Some(k) => {
                    assert(ids_of(k) == (vid, pid));
                    lemma_known_pair_resolves(k);
                },
                None => {
                    assert forall|k: Kind| #[trigger] ids_of(k) != (vid, pid) by {}
                    lemma_unknown_pair_absent(vid, pid);
                },
            }
        }
        r
    }
}


/// The stable, user-facing name of each model.
pub open spec fn name_of(k: Kind) -> Seq<char> {
    match k {
        Kind::Akp05E => "Ajazz AKP05E"@,
        Kind::Akp05EPro => "Ajazz AKP05E Pro"@,
        Kind::N4 => "Mirabox N4"@,
        Kind::N4E => "Mirabox N4E"@,
        Kind::N4ProE => "Mirabox N4 Pro E"@,
        Kind::N4Pro => "Mirabox N4 Pro"@,
        Kind::VsdN4Pro => "VSDInside N4 Pro"@,
        Kind::MsdPro => "Mars Gaming MSD-Pro"@,
        Kind::Cn003 => "Soomfon CN003"@,
    }
}

/// The protocol generation that each model speaks.
pub open spec fn protocol_of(k: Kind) -> usize {
    3
}

/// The frame format of the key display for a protocol generation.
pub open spec fn key_format(version: usize) -> ImageFormat {
    if version == 3 {
        ImageFormat {
            mode: ImageMode::JPEG,
            size: (112, 112),
            rotation: ImageRotation::Rot180,
            mirror: ImageMirroring::None,
        }
    } else {
        ImageFormat {
            mode: ImageMode::JPEG,
            size: (60, 60),
            rotation: ImageRotation::Rot0,
            mirror: ImageMirroring::None,
        }
    }
}

/// The frame format of the touch strip for a protocol generation; generations without
/// a touch strip get the key display's placeholder format.
pub open spec fn touch_format(version: usize) -> ImageFormat {
    if version == 3 {
        ImageFormat {
            mode: ImageMode::JPEG,
            size: (176, 112),
            rotation: ImageRotation::Rot180,
            mirror: ImageMirroring::None,
        }
    } else {
        key_format(version)
    }
}

/// A format that a frame can be encoded in: an encoding, and a width and a height above zero.
pub open spec fn is_usable_format(f: ImageFormat) -> bool {
    &&& !(f.mode is None)
    &&& f.size.0 > 0
    &&& f.size.1 > 0
}

/// Every model has a non-empty name, and no two models share one.
pub proof fn lemma_names_distinct(a: Kind, b: Kind)
    ensures
        name_of(a).len() > 0,
        a != b ==> name_of(a) != name_of(b),
{
    reveal_strlit("Ajazz AKP05E");
    reveal_strlit("Ajazz AKP05E Pro");
    reveal_strlit("Mirabox N4");
    reveal_strlit("Mirabox N4E");
    reveal_strlit("Mirabox N4 Pro E");
    reveal_strlit("Mirabox N4 Pro");
    reveal_strlit("VSDInside N4 Pro");
    reveal_strlit("Mars Gaming MSD-Pro");
    reveal_strlit("Soomfon CN003");
    if a != b && name_of(a) == name_of(b) {
        // Names of equal length already differ in their first character.
        assert(name_of(a).len() == name_of(b).len());
        assert(name_of(a)[0] == name_of(b)[0]);
    }
}

/// Both display formats of every model have an encoding and a non-zero size.
pub proof fn lemma_formats_usable(k: Kind)
    ensures
        is_usable_format(key_format(protocol_of(k))),
        is_usable_format(touch_format(protocol_of(k))),
{
}

impl Kind {
    /// Names the model by a fixed table: the names that devices report over USB differ
    /// between clones and are not relied on.
    pub fn human_name(&self) -> (r: String)
        ensures
            r@ == name_of(*self),
    {
        let name: &str = match self {
            // Ajazz devices
            Kind::Akp05E => "Ajazz AKP05E",
            Kind::Akp05EPro => "Ajazz AKP05E Pro",
            // Mirabox devices
            Kind::N4 => "Mirabox N4",
            Kind::N4E => "Mirabox N4E",
            Kind::N4ProE => "Mirabox N4 Pro E",
            Kind::N4Pro => "Mirabox N4 Pro",
            // VSDInside devices
            Kind::VsdN4Pro => "VSDInside N4 Pro",
            // Mars Gaming devices
            Kind::MsdPro => "Mars Gaming MSD-Pro",
            // Soomfon devices
            Kind::Cn003 => "Soomfon CN003",
        };
        name.to_string()
    }

    /// The protocol generation of the model.
    pub fn protocol_version(&self) -> (r: usize)
        ensures
            r == protocol_of(*self),
    {
        match self {
            _ => 3,
        }
    }

    /// The format that frames for the key display must be prepared in.
    pub fn image_format(&self) -> (r: ImageFormat)
        ensures
            r == key_format(protocol_of(*self)),
    {
        if self.protocol_version() == 3 {
            return ImageFormat {
                mode: ImageMode::JPEG,
                size: (112, 112),
                rotation: ImageRotation::Rot180,
                mirror: ImageMirroring::None,
            };
        }
        ImageFormat {
            mode: ImageMode::JPEG,
            size: (60, 60),
            rotation: ImageRotation::Rot0,
            mirror: ImageMirroring::None,
        }
    }

    /// The format that frames for the touch strip must be prepared in.
    pub fn touch_image_format(&self) -> (r: ImageFormat)
        ensures
            r == touch_format(protocol_of(*self)),
    {
        if self.protocol_version() == 3 {
            return ImageFormat {
                mode: ImageMode::JPEG,
                size: (176, 112),
                rotation: ImageRotation::Rot180,
                mirror: ImageMirroring::None,
            };
        }
        ImageFormat {
            mode: ImageMode::JPEG,
            size: (60, 60),
            rotation: ImageRotation::Rot0,
            mirror: ImageMirroring::None,
        }
    }

    /// Whether the model's encoders report presses and releases as distinct events.
    pub fn supports_both_encoder_states(&self) -> (r: bool)
        ensures
            r == false,
    {
        false
    }
}


/// Every model once, in the order in which the query list names them.
pub open spec fn all_kinds() -> Seq<Kind> {
    seq![
        Kind::Akp05E,
        Kind::Akp05EPro,
        Kind::N4E,
        Kind::N4,
        Kind::N4ProE,
        Kind::N4Pro,
        Kind::VsdN4Pro,
        Kind::MsdPro,
        Kind::Cn003,
    ]
}

/// The discovery query that finds a model.
pub open spec fn query_of(k: Kind) -> DeviceQuery {
    device_query(QUERY_USAGE_PAGE, QUERY_USAGE_ID, ids_of(k).0, ids_of(k).1)
}

/// The query list holds one entry per row of the identifier table, and the
/// identifier pair of every entry resolves to the model it was listed for.
pub proof fn lemma_queries_cover_table()
    ensures
        all_kinds().no_duplicates(),
        forall|k: Kind| all_kinds().contains(k),
        forall|i: int|
            0 <= i < all_kinds().len() ==> kind_for(ids_of(#[trigger] all_kinds()[i]).0, ids_of(all_kinds()[i]).1)
                == Some(all_kinds()[i]),
{
    assert forall|k: Kind| all_kinds().contains(k) by {
        let i: int = match k {
            Kind::Akp05E => 0,
            Kind::Akp05EPro => 1,
            Kind::N4E => 2,
            Kind::N4 => 3,
            Kind::N4ProE => 4,
            Kind::N4Pro => 5,
            Kind::VsdN4Pro => 6,
            Kind::MsdPro => 7,
            Kind::Cn003 => 8,
        };
        assert(all_kinds()[i] == k);
    }
    assert forall|i: int| 0 <= i < all_kinds().len() implies kind_for(
        ids_of(#[trigger] all_kinds()[i]).0,
        ids_of(all_kinds()[i]).1,
    ) == Some(all_kinds()[i]) by {
        lemma_known_pair_resolves(all_kinds()[i]);
    }
}

/// The queries that find every supported model, for the device discovery service.
pub fn queries() -> (r: Vec<DeviceQuery>)
    ensures
        r@.len() == all_kinds().len(),
        forall|i: int| 0 <= i < r@.len() ==> r@[i] == query_of(#[trigger] all_kinds()[i]),
{
    let r = vec![
        DeviceQuery::new(QUERY_USAGE_PAGE, QUERY_USAGE_ID, AJAZZ_VID, AKP05E_PID),
        DeviceQuery::new(QUERY_USAGE_PAGE, QUERY_USAGE_ID, AJAZZ_VID, AKP05E_PRO_PID),
        DeviceQuery::new(QUERY_USAGE_PAGE, QUERY_USAGE_ID, MIRABOX_N4E_VID, N4E_PID),
        DeviceQuery::new(QUERY_USAGE_PAGE, QUERY_USAGE_ID, MIRABOX_N4_VID, N4_PID),
        DeviceQuery::new(QUERY_USAGE_PAGE, QUERY_USAGE_ID, MIRABOX_N4_PRO_E_VID, N4_PRO_E_PID),
        DeviceQuery::new(QUERY_USAGE_PAGE, QUERY_USAGE_ID, MIRABOX_N4_PRO_VID, N4_PRO_PID),
        DeviceQuery::new(QUERY_USAGE_PAGE, QUERY_USAGE_ID, VSDINSIDE_VID, VSD_N4_PRO_PID),
        DeviceQuery::new(QUERY_USAGE_PAGE, QUERY_USAGE_ID, MARS_GAMING_VID, MSD_PRO_PID),
        DeviceQuery::new(QUERY_USAGE_PAGE, QUERY_USAGE_ID, SOOMFON_VID, CN003_PID),
    ];
    r
}

/// A discovered device and the model it was resolved to, handed from discovery to
/// the image pipeline; it lives as long as one connection.
#[derive(Debug, Clone)]
pub struct CandidateDevice {
    pub id: String,
    pub dev: HidDeviceInfo,
    pub kind: Kind,
}

} // verus!
