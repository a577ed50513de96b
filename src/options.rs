use vstd::prelude::*;

use crate::text::{decimal_of, decimal_string, join_strings, joined};

verus! {

/// An option of a print job, with a human-readable name and value.
pub trait PrintOption {
    /// The human-readable name of the option kind.
    spec fn spec_name() -> Seq<char>;

    /// The human-readable form of this option's value.
    spec fn spec_human(&self) -> Seq<char>;

    fn get_name() -> (r: &'static str)
        ensures
            r@ == Self::spec_name(),
    ;

    fn to_human_string(&self) -> (r: String)
        ensures
            r@ == self.spec_human(),
    ;
}

/// Finishing processes performed on the printed media.
#[derive(Clone, Copy, Debug, PartialEq, Eq, Structural)]
pub enum Finishing {
    Bind,
    Cover,
    Fold,
    Punch,
    Staple,
    Trim,
}

impl PrintOption for Finishing {
    open spec fn spec_name() -> Seq<char> {
        "Finishing"@
    }

    open spec fn spec_human(&self) -> Seq<char> {
        match *self {
            Finishing::Bind => "bind"@,
            Finishing::Cover => "cover"@,
            Finishing::Fold => "fold"@,
            Finishing::Punch => "punch"@,
            Finishing::Staple => "staple"@,
            Finishing::Trim => "trim"@,
        }
    }

    fn get_name() -> (r: &'static str) {
        "Finishing"
    }

    fn to_human_string(&self) -> (r: String) {
        String::from_str(
            match self {
                Finishing::Bind => "bind",
                Finishing::Cover => "cover",
                Finishing::Fold => "fold",
                Finishing::Punch => "punch",
                Finishing::Staple => "staple",
                Finishing::Trim => "trim",
            },
        )
    }
}

/// Size of the media, most often the paper size.
#[derive(Clone, Copy, Debug, PartialEq, Eq, Structural)]
pub enum MediaSize {
    A3,
    A3Plus,
    A4,
    A5,
    A6,
    GovtLetter,
    Letter,
    Legal,
    Tabloid,
    Index3x5,
    Index4x6,
    Index5x7,
    Envelope10,
    EnvelopeDL,
    Photo3R,
}

impl PrintOption for MediaSize {
    open spec fn spec_name() -> Seq<char> {
        "Media Size"@
    }

    open spec fn spec_human(&self) -> Seq<char> {
        match *self {
            MediaSize::A3 => "a3"@,
            MediaSize::A3Plus => "a3-plus"@,
            MediaSize::A4 => "a4"@,
            MediaSize::A5 => "a5"@,
            MediaSize::A6 => "a6"@,
            MediaSize::GovtLetter => "govt-letter"@,
            MediaSize::Letter => "letter"@,
            MediaSize::Legal => "legal"@,
            MediaSize::Tabloid => "tabloid"@,
            MediaSize::Index3x5 => "index3x5"@,
            MediaSize::Index4x6 => "index4x6"@,
            MediaSize::Index5x7 => "index5x7"@,
            MediaSize::Envelope10 => "envelope10"@,
            MediaSize::EnvelopeDL => "envelope-dl"@,
            MediaSize::Photo3R => "photo3-r"@,
        }
    }

    fn get_name() -> (r: &'static str) {
        "Media Size"
    }

    fn to_human_string(&self) -> (r: String) {
        String::from_str(
            match self {
                MediaSize::A3 => "a3",
                MediaSize::A3Plus => "a3-plus",
                MediaSize::A4 => "a4",
                MediaSize::A5 => "a5",
                MediaSize::A6 => "a6",
                MediaSize::GovtLetter => "govt-letter",
                MediaSize::Letter => "letter",
                MediaSize::Legal => "legal",
                MediaSize::Tabloid => "tabloid",
                MediaSize::Index3x5 => "index3x5",
                MediaSize::Index4x6 => "index4x6",
                MediaSize::Index5x7 => "index5x7",
                MediaSize::Envelope10 => "envelope10",
                MediaSize::EnvelopeDL => "envelope-dl",
                MediaSize::Photo3R => "photo3-r",
            },
        )
    }
}

/// Where the media is pulled from.
#[derive(Clone, Copy, Debug, PartialEq, Eq, Structural)]
pub enum MediaSource {
    Auto,
    Manual,
}

impl PrintOption for MediaSource {
    open spec fn spec_name() -> Seq<char> {
        "Media Source"@
    }

    open spec fn spec_human(&self) -> Seq<char> {
        match *self {
            MediaSource::Auto => "auto"@,
            MediaSource::Manual => "manual"@,
        }
    }

    fn get_name() -> (r: &'static str) {
        "Media Source"
    }

    fn to_human_string(&self) -> (r: String) {
        String::from_str(
            match self {
                MediaSource::Auto => "auto",
                MediaSource::Manual => "manual",
            },
        )
    }
}

/// Type of the media.
#[derive(Clone, Copy, Debug, PartialEq, Eq, Structural)]
pub enum MediaType {
    Auto,
    Envelope,
    Labels,
    Letterhead,
    Photo,
    PhotoGlossy,
    PhotoMatte,
    Plain,
    Transparent,
}

impl PrintOption for MediaType {
    open spec fn spec_name() -> Seq<char> {
        "Media Type"@
    }

    open spec fn spec_human(&self) -> Seq<char> {
        match *self {
            MediaType::Auto => "auto"@,
            MediaType::Envelope => "envelope"@,
            MediaType::Labels => "labels"@,
            MediaType::Letterhead => "letterhead"@,
            MediaType::Photo => "photo"@,
            MediaType::PhotoGlossy => "photo-glossy"@,
            MediaType::PhotoMatte => "photo-matte"@,
            MediaType::Plain => "plain"@,
            MediaType::Transparent => "transparent"@,
        }
    }

    fn get_name() -> (r: &'static str) {
        "Media Type"
    }

    fn to_human_string(&self) -> (r: String) {
        String::from_str(
            match self {
                MediaType::Auto => "auto",
                MediaType::Envelope => "envelope",
                MediaType::Labels => "labels",
                MediaType::Letterhead => "letterhead",
                MediaType::Photo => "photo",
                MediaType::PhotoGlossy => "photo-glossy",
                MediaType::PhotoMatte => "photo-matte",
                MediaType::Plain => "plain",
                MediaType::Transparent => "transparent",
            },
        )
    }
}

/// Orientation of the document pages on the media.
#[derive(Clone, Copy, Debug, PartialEq, Eq, Structural)]
pub enum Orientation {
    Portrait,
    Landscape,
}

impl PrintOption for Orientation {
    open spec fn spec_name() -> Seq<char> {
        "Orientation"@
    }

    open spec fn spec_human(&self) -> Seq<char> {
        match *self {
            Orientation::Portrait => "portrait"@,
            Orientation::Landscape => "landscape"@,
        }
    }

    fn get_name() -> (r: &'static str) {
        "Orientation"
    }

    fn to_human_string(&self) -> (r: String) {
        String::from_str(
            match self {
                Orientation::Portrait => "portrait",
                Orientation::Landscape => "landscape",
            },
        )
    }
}

/// Whether color or monochrome ink is used.
#[derive(Clone, Copy, Debug, PartialEq, Eq, Structural)]
pub enum ColorMode {
    Auto,
    Monochrome,
    Color,
}

impl PrintOption for ColorMode {
    open spec fn spec_name() -> Seq<char> {
        "Color Mode"@
    }

    open spec fn spec_human(&self) -> Seq<char> {
        match *self {
            ColorMode::Auto => "auto"@,
            ColorMode::Monochrome => "monochrome"@,
            ColorMode::Color => "color"@,
        }
    }

    fn get_name() -> (r: &'static str) {
        "Color Mode"
    }

    fn to_human_string(&self) -> (r: String) {
        String::from_str(
            match self {
                ColorMode::Auto => "auto",
                ColorMode::Monochrome => "monochrome",
                ColorMode::Color => "color",
            },
        )
    }
}

/// Quality of the output.
#[derive(Clone, Copy, Debug, PartialEq, Eq, Structural)]
pub enum Quality {
    Draft,
    Normal,
    High,
}

impl PrintOption for Quality {
    open spec fn spec_name() -> Seq<char> {
        "Quality"@
    }

    open spec fn spec_human(&self) -> Seq<char> {
        match *self {
            Quality::Draft => "draft"@,
            Quality::Normal => "normal"@,
            Quality::High => "high"@,
        }
    }

    fn get_name() -> (r: &'static str) {
        "Quality"
    }

    fn to_human_string(&self) -> (r: String) {
        String::from_str(
            match self {
                Quality::Draft => "draft",
                Quality::Normal => "normal",
                Quality::High => "high",
            },
        )
    }
}

/// Whether one or both sides of the media are printed on.
#[derive(Clone, Copy, Debug, PartialEq, Eq, Structural)]
pub enum SidesMode {
    OneSided,
    TwoSidedPortrait,
    TwoSidedLandscape,
}

impl PrintOption for SidesMode {
    open spec fn spec_name() -> Seq<char> {
        "SidesMode"@
    }

    open spec fn spec_human(&self) -> Seq<char> {
        match *self {
            SidesMode::OneSided => "one-sided"@,
            SidesMode::TwoSidedPortrait => "two-sided-portrait"@,
            SidesMode::TwoSidedLandscape => "two-sided-landscape"@,
        }
    }

    fn get_name() -> (r: &'static str) {
        "SidesMode"
    }

    fn to_human_string(&self) -> (r: String) {
        String::from_str(
            match self {
                SidesMode::OneSided => "one-sided",
                SidesMode::TwoSidedPortrait => "two-sided-portrait",
                SidesMode::TwoSidedLandscape => "two-sided-landscape",
            },
        )
    }
}

/// An amount of copies.
#[derive(Clone, Copy, Debug, PartialEq, Eq, Structural)]
pub struct CopiesInt(pub i32);

impl PrintOption for CopiesInt {
    open spec fn spec_name() -> Seq<char> {
        "Copies"@
    }

    open spec fn spec_human(&self) -> Seq<char> {
        decimal_of(self.0 as int)
    }

    fn get_name() -> (r: &'static str) {
        "Copies"
    }

    fn to_human_string(&self) -> (r: String) {
        decimal_string(self.0)
    }
}

/// A number of document pages per media side.
#[derive(Clone, Copy, Debug, PartialEq, Eq, Structural)]
pub struct NumberUpInt(pub i32);

impl PrintOption for NumberUpInt {
    open spec fn spec_name() -> Seq<char> {
        "Number Up"@
    }

    open spec fn spec_human(&self) -> Seq<char> {
        decimal_of(self.0 as int)
    }

    fn get_name() -> (r: &'static str) {
        "Number Up"
    }

    fn to_human_string(&self) -> (r: String) {
        decimal_string(self.0)
    }
}

/// The human-readable forms of a list of finishings, in order.
pub open spec fn finishing_human_parts(fs: Seq<Finishing>) -> Seq<Seq<char>> {
    fs.map_values(|f: Finishing| f.spec_human())
}

impl PrintOption for Vec<Finishing> {
    open spec fn spec_name() -> Seq<char> {
        "Finishings"@
    }

    open spec fn spec_human(&self) -> Seq<char> {
        joined(finishing_human_parts(self@), ", "@)
    }

    fn get_name() -> (r: &'static str) {
        "Finishings"
    }

    fn to_human_string(&self) -> (r: String) {
        let mut parts: Vec<String> = Vec::new();
        let mut i: usize = 0;
        while i < self.len()
            invariant
                i <= self.len(),
                parts.len() == i,
                forall|j: int| 0 <= j < i ==> #[trigger] parts@[j]@ == self@[j].spec_human(),
            decreases self.len() - i,
        {
            let h = self[i].to_human_string();
            parts.push(h);
            i += 1;
        }
        proof {
            assert(parts@.map_values(|p: String| p@) =~= finishing_human_parts(self@));
        }
        join_strings(&parts, ", ")
    }
}

/// The options of a print job. An absent field is not sent to the spooler,
/// whose own default then applies.
#[derive(Clone, Debug)]
pub struct PrintOptions {
    /// Amount of copies.
    pub copies: Option<CopiesInt>,
    /// Finishing processes such as stapling, folding, etc.
    pub finishings: Option<Vec<Finishing>>,
    /// Media size.
    pub media_size: Option<MediaSize>,
    /// The source where the media is pulled from.
    pub media_source: Option<MediaSource>,
    /// Type of media, such as photo paper, matte paper, etc.
    pub media_type: Option<MediaType>,
    /// Number of document pages per media side.
    pub number_up: Option<NumberUpInt>,
    /// Orientation of document pages on the media.
    pub orientation: Option<Orientation>,
    /// Color of the output.
    pub color_mode: Option<ColorMode>,
    /// Quality of output.
    pub quality: Option<Quality>,
    /// Determines single-sided or duplex printing.
    pub sides_mode: Option<SidesMode>,
}

impl PrintOptions {
    /// True when no field is set.
    pub open spec fn is_empty(&self) -> bool {
        &&& self.copies is None
        &&& self.finishings is None
        &&& self.media_size is None
        &&& self.media_source is None
        &&& self.media_type is None
        &&& self.number_up is None
        &&& self.orientation is None
        &&& self.color_mode is None
        &&& self.quality is None
        &&& self.sides_mode is None
    }
}

impl Default for PrintOptions {
    fn default() -> (r: Self)
        ensures
            r.is_empty(),
    {
        PrintOptions {
            copies: None,
            finishings: None,
            media_size: None,
            media_source: None,
            media_type: None,
            number_up: None,
            orientation: None,
            color_mode: None,
            quality: None,
            sides_mode: None,
        }
    }
}

/// The name of the first option that duplex printing cannot honour, if any:
/// copies, number-up and sides mode are each decided by the two-pass procedure itself.
pub open spec fn duplex_conflict(o: PrintOptions) -> Option<Seq<char>> {
    if o.copies is Some {
        Some("copies"@)
    } else if o.number_up is Some {
        Some("number up"@)
    } else if o.sides_mode is Some {
        Some("sides mode"@)
    } else {
        None
    }
}

/// Checks that `options` suit interactive duplex printing. On failure, returns
/// the name of the first option that is not supported in that mode.
pub fn validate_duplex_options(options: &PrintOptions) -> (r: Result<(), String>)
    ensures
        r is Ok <==> duplex_conflict(*options) is None,
        r is Err ==> Some(r->Err_0@) == duplex_conflict(*options),
{
    if options.copies.is_some() {
        Err(String::from_str("copies"))
    } else if options.number_up.is_some() {
        Err(String::from_str("number up"))
    } else if options.sides_mode.is_some() {
        Err(String::from_str("sides mode"))
    } else {
        Ok(())
    }
}

} // verus!
