use vstd::prelude::*;
use vstd::string::*;

verus! {

/// Height and width of the requested image, in pixels.
#[derive(PartialEq, Eq, Structural, Clone, Copy, Debug)]
pub struct Dimensions {
    pub height: u32,
    pub width: u32,
}

/// A caption written on the image.
#[derive(Clone, Debug, PartialEq, Eq)]
pub struct Says {
    pub sentence: String,
    pub size: Option<u8>,
    pub color: Option<String>,
}

/// Where the viewer places the image.
#[derive(PartialEq, Eq, Structural, Clone, Copy, Debug)]
pub enum Alignment {
    Left,
    Center,
    Right,
}

/// The kinds of filter the image service understands.
#[derive(PartialEq, Eq, Structural, Clone, Copy, Debug)]
pub enum Kind {
    Mono,
    Negate,
    Custom,
}

/// The sizes of image the service offers.
#[derive(PartialEq, Eq, Structural, Clone, Copy, Debug)]
pub enum ImageType {
    Xsmall,
    Small,
    Medium,
    Square,
}

/// A filter applied to the image. The adjustments hold the decimal
/// rendering of their number, as it goes into the request; they and `rgb`
/// are only sent with the custom kind.
#[derive(Clone, Debug, PartialEq, Eq)]
pub struct Filter {
    pub kind: Option<Kind>,
    pub brightness: Option<String>,
    pub lightness: Option<String>,
    pub saturation: Option<String>,
    pub hue: Option<String>,
    pub rgb: Option<Rgb>,
}

/// Channel values of a custom filter.
#[derive(PartialEq, Eq, Structural, Clone, Copy, Debug)]
pub struct Rgb {
    pub r: Option<u8>,
    pub g: Option<u8>,
    pub b: Option<u8>,
}

/// Everything one run is asked to do.
#[derive(Clone, Debug, PartialEq, Eq)]
pub struct Config {
    pub offline: bool,
    pub cache: bool,
    pub image_type: Option<ImageType>,
    pub alignment: Option<Alignment>,
    pub tags: Option<Vec<String>>,
    pub says: Option<Says>,
    pub filter: Option<Filter>,
    pub dimensions: Option<Dimensions>,
}

/// The name the viewer takes for an alignment; none means left.
pub open spec fn alignment_name(a: Option<Alignment>) -> Seq<char> {
    match a {
        Some(Alignment::Center) => "center"@,
        Some(Alignment::Right) => "right"@,
        _ => "left"@,
    }
}

/// The service's name for a filter kind.
pub open spec fn kind_name(k: Kind) -> Seq<char> {
    match k {
        Kind::Mono => "mono"@,
        Kind::Negate => "negate"@,
        Kind::Custom => "custom"@,
    }
}

/// The service's name for an image type.
pub open spec fn image_type_name(t: ImageType) -> Seq<char> {
    match t {
        ImageType::Xsmall => "xsmall"@,
        ImageType::Small => "small"@,
        ImageType::Medium => "medium"@,
        ImageType::Square => "square"@,
    }
}

impl Default for Config {
    fn default() -> (r: Config)
        ensures
            !r.offline,
            !r.cache,
            r.alignment == Some(Alignment::Left),
            r.image_type is None,
            r.tags is None,
            r.says is None,
            r.filter is None,
            r.dimensions is None,
    {
        Config {
            offline: false,
            cache: false,
            alignment: Some(Alignment::Left),
            image_type: None,
            tags: None,
            says: None,
            filter: None,
            dimensions: None,
        }
    }
}

impl Config {
    /// The alignment handed to the viewer.
    pub fn alignment_to_string(&self) -> (r: String)
        ensures
            r@ == alignment_name(self.alignment),
    {
        match self.alignment {
            Some(Alignment::Center) => String::from_str("center"),
            Some(Alignment::Right) => String::from_str("right"),
            _ => String::from_str("left"),
        }
    }
}

impl Kind {
    /// Whether the filter takes the custom adjustments.
    pub fn is_custom(&self) -> (r: bool)
        ensures
            r == (*self == Kind::Custom),
    {
        *self == Kind::Custom
    }

    /// The service's name for this kind.
    pub fn to_string(&self) -> (r: String)
        ensures
            r@ == kind_name(*self),
    {
        match self {
            Kind::Mono => String::from_str("mono"),
            Kind::Negate => String::from_str("negate"),
            Kind::Custom => String::from_str("custom"),
        }
    }
}

impl ImageType {
    /// The service's name for this image type.
    pub fn to_string(&self) -> (r: String)
        ensures
            r@ == image_type_name(*self),
    {
        match self {
            ImageType::Xsmall => String::from_str("xsmall"),
            ImageType::Small => String::from_str("small"),
            ImageType::Medium => String::from_str("medium"),
            ImageType::Square => String::from_str("square"),
        }
    }
}

} // verus!
