use vstd::prelude::*;

use crate::images::{ImageFormat, ImageMirroring, ImageMode, ImageRotation};
use crate::protocol::codes;

verus! {

/// The vendor IDs of the devices that this library handles.
pub open spec fn handled_vendor(vendor: u16) -> bool {
    vendor == codes::VENDOR_ID_MIRABOX_V1 || vendor == codes::VENDOR_ID_MIRABOX_V2
        || vendor == codes::VENDOR_ID_MAD_DOG
}

/// Returns true for vendors IDs that are handled by the library
pub fn is_mirabox_vendor(vendor: u16) -> (r: bool)
    ensures
        r == handled_vendor(vendor),
{
    vendor == codes::VENDOR_ID_MIRABOX_V1 || vendor == codes::VENDOR_ID_MIRABOX_V2
        || vendor == codes::VENDOR_ID_MAD_DOG
}

/// Enum describing kinds of Ajazz devices
#[derive(Copy, Clone, Debug, Hash, PartialEq, Eq, Structural)]
pub enum Kind {
    /// Ajazz AKP153
    Akp153,
    /// Ajazz AKP153E
    Akp153E,
    /// Ajazz AKP153R
    Akp153R,
    /// Ajazz AKP815
    Akp815,
    /// Ajazz AKP03
    Akp03,
    /// Ajazz AKP03E
    Akp03E,
    /// Ajazz AKP03R
    Akp03R,
    /// Ajazz AKP03R rev 2
    Akp03RRev2,
    /// Mad Dog GK150W (rebadged Ajazz AKP153)
    MadDogGk150W,
}

impl Kind {
    /// The kind has this vendor ID and this product ID.
    pub open spec fn has_ids(self, vid: u16, pid: u16) -> bool {
        self.spec_vendor_id() == vid && self.spec_product_id() == pid
    }

    /// Creates [Kind] variant from Vendor ID and Product ID
    pub fn from_vid_pid(vid: u16, pid: u16) -> (r: Option<Kind>)
        ensures
            r matches Some(kind) ==> kind.has_ids(vid, pid),
            r is None ==> forall|kind: Kind| !kind.has_ids(vid, pid),
    {
        let r = if vid == codes::VENDOR_ID_MIRABOX_V1 {
            if pid == codes::PID_AJAZZ_AKP153 {
                Some(Kind::Akp153)
            } else if pid == codes::PID_AJAZZ_AKP815 {
                Some(Kind::Akp815)
            } else {
                None
            }
        } else if vid == codes::VENDOR_ID_MIRABOX_V2 {
            if pid == codes::PID_AJAZZ_AKP153E {
                Some(Kind::Akp153E)
            } else if pid == codes::PID_AJAZZ_AKP153R {
                Some(Kind::Akp153R)
            } else if pid == codes::PID_AJAZZ_AKP03 {
                Some(Kind::Akp03)
            } else if pid == codes::PID_AJAZZ_AKP03E {
                Some(Kind::Akp03E)
            } else if pid == codes::PID_AJAZZ_AKP03R {
                Some(Kind::Akp03R)
            } else if pid == codes::PID_AJAZZ_AKP03R_REV2 {
                Some(Kind::Akp03RRev2)
            } else {
                None
            }
        } else if vid == codes::VENDOR_ID_MAD_DOG {
            if pid == codes::PID_MAD_DOG_GK150W {
                Some(Kind::MadDogGk150W)
            } else {
                None
            }
        } else {
            None
        };
        proof {
            if r is None {
                assert forall|kind: Kind| !kind.has_ids(vid, pid) by {
                    match kind {
                        Kind::Akp153 => {},
                        Kind::Akp153E => {},
                        Kind::Akp153R => {},
                        Kind::Akp815 => {},
                        Kind::Akp03 => {},
                        Kind::Akp03E => {},
                        Kind::Akp03R => {},
                        Kind::Akp03RRev2 => {},
                        Kind::MadDogGk150W => {},
                    }
                }
            }
        }
        r
    }

    /// The product ID of each kind.
    pub open spec fn spec_product_id(&self) -> u16 {
        match *self {
            Kind::Akp153 => codes::PID_AJAZZ_AKP153,
            Kind::Akp153E => codes::PID_AJAZZ_AKP153E,
            Kind::Akp153R => codes::PID_AJAZZ_AKP153R,
            Kind::Akp815 => codes::PID_AJAZZ_AKP815,
            Kind::Akp03 => codes::PID_AJAZZ_AKP03,
            Kind::Akp03E => codes::PID_AJAZZ_AKP03E,
            Kind::Akp03R => codes::PID_AJAZZ_AKP03R,
            Kind::Akp03RRev2 => codes::PID_AJAZZ_AKP03R_REV2,
            Kind::MadDogGk150W => codes::PID_MAD_DOG_GK150W,
        }
    }

    /// Retrieves Product ID of the device
    #[verifier::when_used_as_spec(spec_product_id)]
    pub fn product_id(&self) -> (r: u16)
        ensures
            r == self.spec_product_id(),
    {
        match self {
            Kind::Akp153 => codes::PID_AJAZZ_AKP153,
            Kind::Akp153E => codes::PID_AJAZZ_AKP153E,
            Kind::Akp153R => codes::PID_AJAZZ_AKP153R,
            Kind::Akp815 => codes::PID_AJAZZ_AKP815,
            Kind::Akp03 => codes::PID_AJAZZ_AKP03,
            Kind::Akp03E => codes::PID_AJAZZ_AKP03E,
            Kind::Akp03R => codes::PID_AJAZZ_AKP03R,
            Kind::Akp03RRev2 => codes::PID_AJAZZ_AKP03R_REV2,
            Kind::MadDogGk150W => codes::PID_MAD_DOG_GK150W,
        }
    }

    /// The vendor ID of each kind.
    pub open spec fn spec_vendor_id(&self) -> u16 {
        match *self {
            Kind::Akp153 => codes::VENDOR_ID_MIRABOX_V1,
            Kind::Akp153E => codes::VENDOR_ID_MIRABOX_V2,
            Kind::Akp153R => codes::VENDOR_ID_MIRABOX_V2,
            Kind::Akp815 => codes::VENDOR_ID_MIRABOX_V1,
            Kind::Akp03 => codes::VENDOR_ID_MIRABOX_V2,
            Kind::Akp03E => codes::VENDOR_ID_MIRABOX_V2,
            Kind::Akp03R => codes::VENDOR_ID_MIRABOX_V2,
            Kind::Akp03RRev2 => codes::VENDOR_ID_MIRABOX_V2,
            Kind::MadDogGk150W => codes::VENDOR_ID_MAD_DOG,
        }
    }

    /// Retrieves Vendor ID
    #[verifier::when_used_as_spec(spec_vendor_id)]
    pub fn vendor_id(&self) -> (r: u16)
        ensures
            r == self.spec_vendor_id(),
    {
        match self {
            Kind::Akp153 => codes::VENDOR_ID_MIRABOX_V1,
            Kind::Akp153E => codes::VENDOR_ID_MIRABOX_V2,
            Kind::Akp153R => codes::VENDOR_ID_MIRABOX_V2,
            Kind::Akp815 => codes::VENDOR_ID_MIRABOX_V1,
            Kind::Akp03 => codes::VENDOR_ID_MIRABOX_V2,
            Kind::Akp03E => codes::VENDOR_ID_MIRABOX_V2,
            Kind::Akp03R => codes::VENDOR_ID_MIRABOX_V2,
            Kind::Akp03RRev2 => codes::VENDOR_ID_MIRABOX_V2,
            Kind::MadDogGk150W => codes::VENDOR_ID_MAD_DOG,
        }
    }

    /// The AKP153 and the devices built like it (AKP153E, AKP153R, Mad Dog GK150W).
    pub open spec fn is_akp153_like(&self) -> bool {
        *self is Akp153 || *self is Akp153E || *self is Akp153R || *self is MadDogGk150W
    }

    /// The AKP03 and its revisions.
    pub open spec fn spec_is_akp03(&self) -> bool {
        *self is Akp03 || *self is Akp03E || *self is Akp03R || *self is Akp03RRev2
    }

    /// Number of keys of each kind.
    pub open spec fn spec_key_count(&self) -> u8 {
        if self.is_akp153_like() {
            18
        } else if *self is Akp815 {
            15
        } else {
            9
        }
    }

    /// Amount of keys the device has
    #[verifier::when_used_as_spec(spec_key_count)]
    pub fn key_count(&self) -> (r: u8)
        ensures
            r == self.spec_key_count(),
    {
        match self {
            Kind::Akp153 | Kind::Akp153E | Kind::Akp153R | Kind::MadDogGk150W => 15 + 3,
            Kind::Akp815 => 15,
            Kind::Akp03 | Kind::Akp03E | Kind::Akp03R | Kind::Akp03RRev2 => 6 + 3,
        }
    }

    /// Number of keys with a display of each kind.
    pub open spec fn spec_display_key_count(&self) -> u8 {
        if self.spec_is_akp03() {
            6
        } else {
            self.spec_key_count()
        }
    }

    /// Amount of display keys the device has
    #[verifier::when_used_as_spec(spec_display_key_count)]
    pub fn display_key_count(&self) -> (r: u8)
        ensures
            r == self.spec_display_key_count(),
    {
        match self {
            Kind::Akp03 | Kind::Akp03E | Kind::Akp03R | Kind::Akp03RRev2 => 6,
            _ => self.key_count(),
        }
    }

    /// Number of button rows of each kind.
    pub open spec fn spec_row_count(&self) -> u8 {
        if self.is_akp153_like() {
            3
        } else if *self is Akp815 {
            5
        } else {
            2
        }
    }

    /// Amount of button rows the device has
    #[verifier::when_used_as_spec(spec_row_count)]
    pub fn row_count(&self) -> (r: u8)
        ensures
            r == self.spec_row_count(),
    {
        match self {
            Kind::Akp153 | Kind::Akp153E | Kind::Akp153R | Kind::MadDogGk150W => 3,
            Kind::Akp815 => 5,
            Kind::Akp03 | Kind::Akp03E | Kind::Akp03R | Kind::Akp03RRev2 => 2,
        }
    }

    /// Number of button columns of each kind.
    pub open spec fn spec_column_count(&self) -> u8 {
        if self.is_akp153_like() {
            6
        } else {
            3
        }
    }

    /// Amount of button columns the device has
    #[verifier::when_used_as_spec(spec_column_count)]
    pub fn column_count(&self) -> (r: u8)
        ensures
            r == self.spec_column_count(),
    {
        match self {
            Kind::Akp153 | Kind::Akp153E | Kind::Akp153R | Kind::MadDogGk150W => 6,
            Kind::Akp815 => 3,
            Kind::Akp03 | Kind::Akp03E | Kind::Akp03R | Kind::Akp03RRev2 => 3,
        }
    }

    /// Number of encoders (knobs) of each kind.
    pub open spec fn spec_encoder_count(&self) -> u8 {
        if self.spec_is_akp03() {
            3
        } else {
            0
        }
    }

    /// Amount of encoders/knobs the device has
    #[verifier::when_used_as_spec(spec_encoder_count)]
    pub fn encoder_count(&self) -> (r: u8)
        ensures
            r == self.spec_encoder_count(),
    {
        match self {
            Kind::Akp03 | Kind::Akp03E | Kind::Akp03R | Kind::Akp03RRev2 => 3,
            _ => 0,
        }
    }

    /// Size of the LCD strip of each kind, where it has one.
    pub open spec fn spec_lcd_strip_size(&self) -> Option<(usize, usize)> {
        if self.is_akp153_like() {
            Some((854, 480))
        } else if *self is Akp815 {
            Some((800, 480))
        } else {
            None
        }
    }

    /// Size of the LCD strip on the device
    #[verifier::when_used_as_spec(spec_lcd_strip_size)]
    pub fn lcd_strip_size(&self) -> (r: Option<(usize, usize)>)
        ensures
            r == self.spec_lcd_strip_size(),
    {
        match self {
            Kind::Akp153 | Kind::Akp153E | Kind::Akp153R | Kind::MadDogGk150W => {
                Some((854, 480))
            },
            Kind::Akp815 => Some((800, 480)),
            _ => None,
        }
    }

    /// Size of the boot logo of each kind.
    pub open spec fn spec_boot_logo_size(&self) -> Option<(usize, usize)> {
        if self.spec_is_akp03() {
            Some((320, 240))
        } else {
            self.spec_lcd_strip_size()
        }
    }

    /// Size of the boot logo on the device
    #[verifier::when_used_as_spec(spec_boot_logo_size)]
    pub fn boot_logo_size(&self) -> (r: Option<(usize, usize)>)
        ensures
            r == self.spec_boot_logo_size(),
    {
        match self {
            Kind::Akp03 | Kind::Akp03E | Kind::Akp03R | Kind::Akp03RRev2 => Some((320, 240)),
            _ => self.lcd_strip_size(),
        }
    }

    /// Key layout of the device kind as (rows, columns)
    pub fn key_layout(&self) -> (r: (u8, u8))
        ensures
            r == (self.spec_row_count(), self.spec_column_count()),
    {
        (self.row_count(), self.column_count())
    }

    /// The format in which each kind takes its boot logo.
    pub open spec fn spec_logo_image_format(&self) -> ImageFormat {
        if self.spec_is_akp03() {
            ImageFormat {
                mode: ImageMode::JPEG,
                size: (240, 320),
                rotation: ImageRotation::Rot90,
                mirror: ImageMirroring::NoMirror,
            }
        } else if self.is_akp153_like() {
            ImageFormat {
                mode: ImageMode::JPEG,
                size: (854, 480),
                rotation: ImageRotation::Rot0,
                mirror: ImageMirroring::NoMirror,
            }
        } else {
            ImageFormat {
                mode: ImageMode::JPEG,
                size: (800, 480),
                rotation: ImageRotation::Rot0,
                mirror: ImageMirroring::NoMirror,
            }
        }
    }

    /// Image format used by the device kind
    #[verifier::when_used_as_spec(spec_logo_image_format)]
    pub fn logo_image_format(&self) -> (r: ImageFormat)
        ensures
            r == self.spec_logo_image_format(),
    {
        match self {
            Kind::Akp03 | Kind::Akp03E | Kind::Akp03R | Kind::Akp03RRev2 => ImageFormat {
                mode: ImageMode::JPEG,
                size: (240, 320),
                rotation: ImageRotation::Rot90,
                mirror: ImageMirroring::NoMirror,
            },
            Kind::Akp153 | Kind::Akp153E | Kind::Akp153R | Kind::MadDogGk150W => ImageFormat {
                mode: ImageMode::JPEG,
                size: (854, 480),
                rotation: ImageRotation::Rot0,
                mirror: ImageMirroring::NoMirror,
            },
            Kind::Akp815 => ImageFormat {
                mode: ImageMode::JPEG,
                size: (800, 480),
                rotation: ImageRotation::Rot0,
                mirror: ImageMirroring::NoMirror,
            },
        }
    }

    /// The format in which each kind takes its key images.
    pub open spec fn spec_key_image_format(&self) -> ImageFormat {
        if self.is_akp153_like() {
            ImageFormat {
                mode: ImageMode::JPEG,
                size: (85, 85),
                rotation: ImageRotation::Rot90,
                mirror: ImageMirroring::Both,
            }
        } else if *self is Akp815 {
            ImageFormat {
                mode: ImageMode::JPEG,
                size: (100, 100),
                rotation: ImageRotation::Rot180,
                mirror: ImageMirroring::NoMirror,
            }
        } else if *self is Akp03RRev2 {
            ImageFormat {
                mode: ImageMode::JPEG,
                size: (64, 64),
                rotation: ImageRotation::Rot90,
                mirror: ImageMirroring::NoMirror,
            }
        } else {
            ImageFormat {
                mode: ImageMode::JPEG,
                size: (60, 60),
                rotation: ImageRotation::Rot0,
                mirror: ImageMirroring::NoMirror,
            }
        }
    }

    /// Image format used by the device kind
    #[verifier::when_used_as_spec(spec_key_image_format)]
    pub fn key_image_format(&self) -> (r: ImageFormat)
        ensures
            r == self.spec_key_image_format(),
    {
        match self {
            Kind::Akp153 | Kind::Akp153E | Kind::Akp153R | Kind::MadDogGk150W => ImageFormat {
                mode: ImageMode::JPEG,
                size: (85, 85),
                rotation: ImageRotation::Rot90,
                mirror: ImageMirroring::Both,
            },
            Kind::Akp815 => ImageFormat {
                mode: ImageMode::JPEG,
                size: (100, 100),
                rotation: ImageRotation::Rot180,
                mirror: ImageMirroring::NoMirror,
            },
            Kind::Akp03 | Kind::Akp03E | Kind::Akp03R => ImageFormat {
                mode: ImageMode::JPEG,
                size: (60, 60),
                rotation: ImageRotation::Rot0,
                mirror: ImageMirroring::NoMirror,
            },
            Kind::Akp03RRev2 => ImageFormat {
                mode: ImageMode::JPEG,
                size: (64, 64),
                rotation: ImageRotation::Rot90,
                mirror: ImageMirroring::NoMirror,
            },
        }
    }

    /// Kinds that talk the protocol with 512 byte packets.
    pub open spec fn spec_is_v1_api(&self) -> bool {
        self.is_akp153_like() || *self is Akp815
    }

    /// Returns true for devices with 512 byte packet length
    #[verifier::when_used_as_spec(spec_is_v1_api)]
    pub fn is_v1_api(&self) -> (r: bool)
        ensures
            r == self.spec_is_v1_api(),
    {
        match self {
            Kind::Akp153 | Kind::Akp153E | Kind::Akp153R | Kind::MadDogGk150W | Kind::Akp815 => true,
            _ => false,
        }
    }

    /// Returns true for devices with 1024 byte packet length
    #[verifier::when_used_as_spec(spec_is_akp03)]
    pub fn is_v2_api(&self) -> (r: bool)
        ensures
            r == self.spec_is_akp03(),
    {
        self.is_akp03()
    }

    /// Returns true for devices is Ajazz AKP03
    #[verifier::when_used_as_spec(spec_is_akp03)]
    pub fn is_akp03(&self) -> (r: bool)
        ensures
            r == self.spec_is_akp03(),
    {
        match self {
            Kind::Akp03 | Kind::Akp03E | Kind::Akp03R | Kind::Akp03RRev2 => true,
            _ => false,
        }
    }
}

/// No two kinds share both their vendor ID and their product ID, so the kind
/// that `from_vid_pid` finds for a kind's IDs is that kind.
pub proof fn kinds_have_distinct_ids(a: Kind, b: Kind)
    ensures
        a.has_ids(b.vendor_id(), b.product_id()) ==> a == b,
{
    match a {
        Kind::Akp153 => {},
        Kind::Akp153E => {},
        Kind::Akp153R => {},
        Kind::Akp815 => {},
        Kind::Akp03 => {},
        Kind::Akp03E => {},
        Kind::Akp03R => {},
        Kind::Akp03RRev2 => {},
        Kind::MadDogGk150W => {},
    }
}

/// The vendor of every kind is one that the library handles.
pub proof fn every_kind_vendor_is_handled(kind: Kind)
    ensures
        handled_vendor(kind.vendor_id()),
{
}

/// Key counts, key layout (rows, columns), encoders and screen sizes of every
/// kind: the AKP153, AKP153E, AKP153R and Mad Dog GK150W have 18 keys in 3
/// rows of 6 and an 854 x 480 strip; the AKP815 has 15 keys in 5 rows of 3 and
/// an 800 x 480 strip; the AKP03 family has 9 keys of which 6 with a display in
/// 2 rows of 3, 3 encoders, no strip and a 320 x 240 boot logo.
pub proof fn device_geometry(kind: Kind)
    ensures
        kind is Akp153 || kind is Akp153E || kind is Akp153R || kind is MadDogGk150W ==> {
            &&& kind.key_count() == 18
            &&& kind.display_key_count() == 18
            &&& kind.row_count() == 3u8
            &&& kind.column_count() == 6u8
            &&& kind.encoder_count() == 0
            &&& kind.lcd_strip_size() == Some((854usize, 480usize))
            &&& kind.boot_logo_size() == Some((854usize, 480usize))
        },
        kind is Akp815 ==> {
            &&& kind.key_count() == 15
            &&& kind.display_key_count() == 15
            &&& kind.row_count() == 5u8
            &&& kind.column_count() == 3u8
            &&& kind.encoder_count() == 0
            &&& kind.lcd_strip_size() == Some((800usize, 480usize))
            &&& kind.boot_logo_size() == Some((800usize, 480usize))
        },
        kind is Akp03 || kind is Akp03E || kind is Akp03R || kind is Akp03RRev2 ==> {
            &&& kind.key_count() == 9
            &&& kind.display_key_count() == 6
            &&& kind.row_count() == 2u8
            &&& kind.column_count() == 3u8
            &&& kind.encoder_count() == 3
            &&& kind.lcd_strip_size() == None::<(usize, usize)>
            &&& kind.boot_logo_size() == Some((320usize, 240usize))
        },
{
}

/// The key image format of every kind: JPEG, turned a quarter and mirrored on
/// both axes at 85 x 85 for the AKP153 family; turned half a turn at 100 x 100
/// for the AKP815; unturned at 60 x 60 for the AKP03, AKP03E and AKP03R; turned
/// a quarter at 64 x 64 for the AKP03R rev 2; none of the others mirrored.
pub proof fn key_image_formats(kind: Kind)
    ensures
        kind is Akp153 || kind is Akp153E || kind is Akp153R || kind is MadDogGk150W
            ==> kind.key_image_format() == (ImageFormat {
            mode: ImageMode::JPEG,
            size: (85, 85),
            rotation: ImageRotation::Rot90,
            mirror: ImageMirroring::Both,
        }),
        kind is Akp815 ==> kind.key_image_format() == (ImageFormat {
            mode: ImageMode::JPEG,
            size: (100, 100),
            rotation: ImageRotation::Rot180,
            mirror: ImageMirroring::NoMirror,
        }),
        kind is Akp03 || kind is Akp03E || kind is Akp03R ==> kind.key_image_format() == (
        ImageFormat {
            mode: ImageMode::JPEG,
            size: (60, 60),
            rotation: ImageRotation::Rot0,
            mirror: ImageMirroring::NoMirror,
        }),
        kind is Akp03RRev2 ==> kind.key_image_format() == (ImageFormat {
            mode: ImageMode::JPEG,
            size: (64, 64),
            rotation: ImageRotation::Rot90,
            mirror: ImageMirroring::NoMirror,
        }),
{
}

/// The boot logo format of every kind is a JPEG that is never mirrored. On the
/// protocol v1 devices it is not turned and has the size of the LCD strip; on
/// the AKP03 family it is turned a quarter and has the 320 x 240 boot logo
/// size with its sides swapped.
pub proof fn logo_image_formats(kind: Kind)
    ensures
        kind.logo_image_format().mode is JPEG,
        kind.logo_image_format().mirror is NoMirror,
        kind is Akp153 || kind is Akp153E || kind is Akp153R || kind is MadDogGk150W
            || kind is Akp815 ==> {
            &&& kind.logo_image_format().rotation is Rot0
            &&& kind.lcd_strip_size() == Some(kind.logo_image_format().size)
        },
        kind is Akp03 || kind is Akp03E || kind is Akp03R || kind is Akp03RRev2 ==> {
            &&& kind.logo_image_format().rotation is Rot90
            &&& kind.logo_image_format().size == (240usize, 320usize)
        },
{
}

/// The vendor and product ID of every kind: AKP153 0x5548:0x6674, AKP815
/// 0x5548:0x6672, AKP153E 0x0300:0x1010, AKP153R 0x0300:0x1020, AKP03
/// 0x0300:0x1001, AKP03E 0x0300:0x3002, AKP03R 0x0300:0x1003, AKP03R rev 2
/// 0x0300:0x3003, Mad Dog GK150W 0x1200:0x2014.
pub proof fn device_ids(kind: Kind)
    ensures
        kind is Akp153 ==> kind.has_ids(0x5548, 0x6674),
        kind is Akp815 ==> kind.has_ids(0x5548, 0x6672),
        kind is Akp153E ==> kind.has_ids(0x0300, 0x1010),
        kind is Akp153R ==> kind.has_ids(0x0300, 0x1020),
        kind is Akp03 ==> kind.has_ids(0x0300, 0x1001),
        kind is Akp03E ==> kind.has_ids(0x0300, 0x3002),
        kind is Akp03R ==> kind.has_ids(0x0300, 0x1003),
        kind is Akp03RRev2 ==> kind.has_ids(0x0300, 0x3003),
        kind is MadDogGk150W ==> kind.has_ids(0x1200, 0x2014),
{
}

/// The vendors that the library handles are exactly 0x5548, 0x0300 and 0x1200.
pub proof fn handled_vendors(vendor: u16)
    ensures
        handled_vendor(vendor) <==> (vendor == 0x5548 || vendor == 0x0300 || vendor == 0x1200),
{
}

/// The protocol v1 devices are the AKP153 family and the AKP815; the AKP03
/// family speaks protocol v2.
pub proof fn protocol_versions(kind: Kind)
    ensures
        kind.is_v1_api() <==> (kind is Akp153 || kind is Akp153E || kind is Akp153R
            || kind is MadDogGk150W || kind is Akp815),
        kind.is_akp03() <==> (kind is Akp03 || kind is Akp03E || kind is Akp03R
            || kind is Akp03RRev2),
{
}

/// Every kind speaks exactly one of the two protocol versions.
pub proof fn one_protocol_version(kind: Kind)
    ensures
        kind.is_v1_api() != kind.is_v2_api(),
{
}

/// The keys with a display form the grid of rows and columns, and there are
/// never more of them than keys.
pub proof fn display_keys_form_the_layout(kind: Kind)
    ensures
        kind.display_key_count() == kind.row_count() * kind.column_count(),
        kind.display_key_count() <= kind.key_count(),
{
    if kind.is_akp153_like() {
        assert(kind.row_count() * kind.column_count() == 3 * 6);
    } else if kind is Akp815 {
        assert(kind.row_count() * kind.column_count() == 5 * 3);
    } else {
        assert(kind.row_count() * kind.column_count() == 2 * 3);
    }
}

/// Only the AKP03 family has encoders.
pub proof fn encoders_only_on_akp03(kind: Kind)
    ensures
        (kind.encoder_count() > 0) == kind.is_akp03(),
{
}

/// Every kind has a boot logo, and its logo format has the boot logo's size,
/// with width and height swapped exactly when the logo is turned by 90 degrees.
pub proof fn logo_format_matches_boot_logo(kind: Kind)
    ensures
        kind.boot_logo_size() matches Some(size) && ({
            let format = kind.logo_image_format();
            if format.rotation is Rot90 {
                format.size == (size.1, size.0)
            } else {
                format.size == size
            }
        }),
{
}

} // verus!
