use vstd::prelude::*;

use crate::options::{
    ColorMode, CopiesInt, Finishing, MediaSize, MediaSource, MediaType, NumberUpInt, Orientation,
    PrintOption, Quality, SidesMode,
};
use crate::text::{decimal_of, decimal_string, join_strings, joined};

verus! {

/// The spooler's value for an empty list of finishings.
pub const FINISHINGS_NONE: &'static str = "3";

/// An option that the spooler understands: a fixed native key, and a value
/// encoded as the spooler expects it.
pub trait CupsOption: PrintOption {
    /// The native key of the option kind.
    spec fn spec_cups_name() -> Seq<char>;

    /// The native encoding of this option's value.
    spec fn spec_cups_value(&self) -> Seq<char>;

    fn get_cups_option_name() -> (r: &'static str)
        ensures
            r@ == Self::spec_cups_name(),
    ;

    fn get_cups_option_value(&self) -> (r: String)
        ensures
            r@ == self.spec_cups_value(),
    ;
}

impl CupsOption for Finishing {
    open spec fn spec_cups_name() -> Seq<char> {
        "finishings"@
    }

    open spec fn spec_cups_value(&self) -> Seq<char> {
        match *self {
            Finishing::Bind => "7"@,
            Finishing::Cover => "6"@,
            Finishing::Fold => "10"@,
            Finishing::Punch => "5"@,
            Finishing::Staple => "4"@,
            Finishing::Trim => "11"@,
        }
    }

    fn get_cups_option_name() -> (r: &'static str) {
        "finishings"
    }

    fn get_cups_option_value(&self) -> (r: String) {
        String::from_str(
            match self {
                Finishing::Bind => "7",
                Finishing::Cover => "6",
                Finishing::Fold => "10",
                Finishing::Punch => "5",
                Finishing::Staple => "4",
                Finishing::Trim => "11",
            },
        )
    }
}

impl CupsOption for MediaSize {
    open spec fn spec_cups_name() -> Seq<char> {
        "media"@
    }

    open spec fn spec_cups_value(&self) -> Seq<char> {
        match *self {
            MediaSize::A3 => "iso_a3_297x420mm"@,
            MediaSize::A3Plus => "na_super-b_13x19in"@,
            MediaSize::A4 => "iso_a4_210x297mm"@,
            MediaSize::A5 => "iso_a5_148x210mm"@,
            MediaSize::A6 => "iso_a6_105x148mm"@,
            MediaSize::GovtLetter => "na_govt-letter_8x10in"@,
            MediaSize::Letter => "na_letter_8.5x11in"@,
            MediaSize::Legal => "na_legal_8.5x14in"@,
            MediaSize::Tabloid => "na_ledger_11x17in"@,
            MediaSize::Index3x5 => "na_index-3x5_3x5in"@,
            MediaSize::Index4x6 => "na_index-4x6_4x6in"@,
            MediaSize::Index5x7 => "na_5x7_5x7in"@,
            MediaSize::Envelope10 => "na_number-10_4.125x9.5in"@,
            MediaSize::EnvelopeDL => "iso_dl_110x220mm"@,
            MediaSize::Photo3R => "oe_photo-l_3.5x5in"@,
        }
    }

    fn get_cups_option_name() -> (r: &'static str) {
        "media"
    }

    fn get_cups_option_value(&self) -> (r: String) {
        String::from_str(
            match self {
                MediaSize::A3 => "iso_a3_297x420mm",
                MediaSize::A3Plus => "na_super-b_13x19in",
                MediaSize::A4 => "iso_a4_210x297mm",
                MediaSize::A5 => "iso_a5_148x210mm",
                MediaSize::A6 => "iso_a6_105x148mm",
                MediaSize::GovtLetter => "na_govt-letter_8x10in",
                MediaSize::Letter => "na_letter_8.5x11in",
                MediaSize::Legal => "na_legal_8.5x14in",
                MediaSize::Tabloid => "na_ledger_11x17in",
                MediaSize::Index3x5 => "na_index-3x5_3x5in",
                MediaSize::Index4x6 => "na_index-4x6_4x6in",
                MediaSize::Index5x7 => "na_5x7_5x7in",
                MediaSize::Envelope10 => "na_number-10_4.125x9.5in",
                MediaSize::EnvelopeDL => "iso_dl_110x220mm",
                MediaSize::Photo3R => "oe_photo-l_3.5x5in",
            },
        )
    }
}

impl CupsOption for MediaSource {
    open spec fn spec_cups_name() -> Seq<char> {
        "media-source"@
    }

    open spec fn spec_cups_value(&self) -> Seq<char> {
        match *self {
            MediaSource::Auto => "auto"@,
            MediaSource::Manual => "manual"@,
        }
    }

    fn get_cups_option_name() -> (r: &'static str) {
        "media-source"
    }

    fn get_cups_option_value(&self) -> (r: String) {
        String::from_str(
            match self {
                MediaSource::Auto => "auto",
                MediaSource::Manual => "manual",
            },
        )
    }
}

impl CupsOption for MediaType {
    open spec fn spec_cups_name() -> Seq<char> {
        "media-type"@
    }

    open spec fn spec_cups_value(&self) -> Seq<char> {
        match *self {
            MediaType::Auto => "auto"@,
            MediaType::Envelope => "envelope"@,
            MediaType::Labels => "labels"@,
            MediaType::Letterhead => "stationery-letterhead"@,
            MediaType::Photo => "photographic"@,
            MediaType::PhotoGlossy => "photographic-glossy"@,
            MediaType::PhotoMatte => "photographic-matte"@,
            MediaType::Plain => "stationery"@,
            MediaType::Transparent => "transparency"@,
        }
    }

    fn get_cups_option_name() -> (r: &'static str) {
        "media-type"
    }

    fn get_cups_option_value(&self) -> (r: String) {
        String::from_str(
            match self {
                MediaType::Auto => "auto",
                MediaType::Envelope => "envelope",
                MediaType::Labels => "labels",
                MediaType::Letterhead => "stationery-letterhead",
                MediaType::Photo => "photographic",
                MediaType::PhotoGlossy => "photographic-glossy",
                MediaType::PhotoMatte => "photographic-matte",
                MediaType::Plain => "stationery",
                MediaType::Transparent => "transparency",
            },
        )
    }
}

impl CupsOption for Orientation {
    open spec fn spec_cups_name() -> Seq<char> {
        "orientation-requested"@
    }

    open spec fn spec_cups_value(&self) -> Seq<char> {
        match *self {
            Orientation::Portrait => "3"@,
            Orientation::Landscape => "4"@,
        }
    }

    fn get_cups_option_name() -> (r: &'static str) {
        "orientation-requested"
    }

    fn get_cups_option_value(&self) -> (r: String) {
        String::from_str(
            match self {
                Orientation::Portrait => "3",
                Orientation::Landscape => "4",
            },
        )
    }
}

impl CupsOption for ColorMode {
    open spec fn spec_cups_name() -> Seq<char> {
        "print-color-mode"@
    }

    open spec fn spec_cups_value(&self) -> Seq<char> {
        match *self {
            ColorMode::Auto => "auto"@,
            ColorMode::Monochrome => "monochrome"@,
            ColorMode::Color => "color"@,
        }
    }

    fn get_cups_option_name() -> (r: &'static str) {
        "print-color-mode"
    }

    fn get_cups_option_value(&self) -> (r: String) {
        String::from_str(
            match self {
                ColorMode::Auto => "auto",
                ColorMode::Monochrome => "monochrome",
                ColorMode::Color => "color",
            },
        )
    }
}

impl CupsOption for Quality {
    open spec fn spec_cups_name() -> Seq<char> {
        "print-quality"@
    }

    open spec fn spec_cups_value(&self) -> Seq<char> {
        match *self {
            Quality::Draft => "3"@,
            Quality::Normal => "4"@,
            Quality::High => "5"@,
        }
    }

    fn get_cups_option_name() -> (r: &'static str) {
        "print-quality"
    }

    fn get_cups_option_value(&self) -> (r: String) {
        String::from_str(
            match self {
                Quality::Draft => "3",
                Quality::Normal => "4",
                Quality::High => "5",
            },
        )
    }
}

impl CupsOption for SidesMode {
    open spec fn spec_cups_name() -> Seq<char> {
        "sides"@
    }

    open spec fn spec_cups_value(&self) -> Seq<char> {
        match *self {
            SidesMode::OneSided => "one-sided"@,
            SidesMode::TwoSidedPortrait => "two-sided-long-edge"@,
            SidesMode::TwoSidedLandscape => "two-sided-short-edge"@,
        }
    }

    fn get_cups_option_name() -> (r: &'static str) {
        "sides"
    }

    fn get_cups_option_value(&self) -> (r: String) {
        String::from_str(
            match self {
                SidesMode::OneSided => "one-sided",
                SidesMode::TwoSidedPortrait => "two-sided-long-edge",
                SidesMode::TwoSidedLandscape => "two-sided-short-edge",
            },
        )
    }
}

impl CupsOption for CopiesInt {
    open spec fn spec_cups_name() -> Seq<char> {
        "copies"@
    }

    open spec fn spec_cups_value(&self) -> Seq<char> {
        decimal_of(self.0 as int)
    }

    fn get_cups_option_name() -> (r: &'static str) {
        "copies"
    }

    fn get_cups_option_value(&self) -> (r: String) {
        decimal_string(self.0)
    }
}

impl CupsOption for NumberUpInt {
    open spec fn spec_cups_name() -> Seq<char> {
        "number-up"@
    }

    open spec fn spec_cups_value(&self) -> Seq<char> {
        decimal_of(self.0 as int)
    }

    fn get_cups_option_name() -> (r: &'static str) {
        "number-up"
    }

    fn get_cups_option_value(&self) -> (r: String) {
        decimal_string(self.0)
    }
}

/// The native codes of a list of finishings, in order.
pub open spec fn finishing_codes(fs: Seq<Finishing>) -> Seq<Seq<char>> {
    fs.map_values(|f: Finishing| f.spec_cups_value())
}

/// The native value of a list of finishings: the codes joined by commas in
/// input order, or the dedicated "none" code when the list is empty.
pub open spec fn finishings_value(fs: Seq<Finishing>) -> Seq<char> {
    if fs.len() == 0 {
        FINISHINGS_NONE@
    } else {
        joined(finishing_codes(fs), ","@)
    }
}

/// The encoding of finishings: an empty list is exactly the "none" code, a
/// single finishing is exactly its own code, and several are their codes in
/// input order separated by single commas, with no trailing comma.
pub proof fn lemma_finishings_encoding(a: Finishing, b: Finishing, c: Finishing)
    ensures
        finishings_value(Seq::empty()) == FINISHINGS_NONE@,
        finishings_value(seq![a]) == a.spec_cups_value(),
        finishings_value(seq![a, b, c]) == a.spec_cups_value() + ","@ + b.spec_cups_value() + ","@
            + c.spec_cups_value(),
{
    let (ac, bc, cc) = (a.spec_cups_value(), b.spec_cups_value(), c.spec_cups_value());
    let sep = ","@;
    assert(finishing_codes(seq![a]) =~= seq![ac]);
    let one = seq![ac];
    let two = seq![ac, bc];
    let three = seq![ac, bc, cc];
    assert(finishing_codes(seq![a, b, c]) =~= three);
    assert(joined(one, sep) == ac);
    assert(two.drop_last() =~= one);
    assert(joined(two, sep) == ac + sep + bc);
    assert(three.drop_last() =~= two);
    assert(joined(three, sep) == ac + sep + bc + sep + cc);
}

impl CupsOption for Vec<Finishing> {
    open spec fn spec_cups_name() -> Seq<char> {
        "finishings"@
    }

    open spec fn spec_cups_value(&self) -> Seq<char> {
        finishings_value(self@)
    }

    fn get_cups_option_name() -> (r: &'static str) {
        "finishings"
    }

    fn get_cups_option_value(&self) -> (r: String) {
        if self.len() == 0 {
            return String::from_str(FINISHINGS_NONE);
        }
        let mut codes: Vec<String> = Vec::new();
        let mut i: usize = 0;
        while i < self.len()
            invariant
                i <= self.len(),
                codes.len() == i,
                forall|j: int| 0 <= j < i ==> #[trigger] codes@[j]@ == self@[j].spec_cups_value(),
            decreases self.len() - i,
        {
            let code = self[i].get_cups_option_value();
            codes.push(code);
            i += 1;
        }
        proof {
            assert(codes@.map_values(|p: String| p@) =~= finishing_codes(self@));
        }
        join_strings(&codes, ",")
    }
}

} // verus!
