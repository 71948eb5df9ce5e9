//! The encoder variants and their canonical file extensions.

use vstd::prelude::*;

verus! {

/// How much effort the PNG codec spends on compression.
#[derive(Debug, Clone, Copy, PartialEq, Eq, Structural)]
pub enum CompressionLevel {
    Best,
    Default,
    Fast,
}

impl Default for CompressionLevel {
    fn default() -> (level: Self)
        ensures
            level == CompressionLevel::Default,
    {
        CompressionLevel::Default
    }
}

/// The lowest quality setting of a JPEG.
pub const QUALITY_MIN: u32 = 0;

/// The highest quality setting of a JPEG.
pub const QUALITY_MAX: u32 = 100;

/// The label of the quality setting in a settings panel.
pub const QUALITY_LABEL: &'static str = "Quality";

/// The slider that a settings panel shows for a quality: where it stands and
/// between which ends it moves.
#[derive(Debug, Clone, Copy, PartialEq, Eq, Structural)]
pub struct QualitySlider {
    pub value: u32,
    pub min: u32,
    pub max: u32,
}

/// An output format together with the options that format takes.
#[derive(Debug, PartialEq, Eq, Structural)]
pub enum FileEncoder {
    Jpg { quality: u32 },
    Png { compressionlevel: CompressionLevel },
    Bmp,
    WebP,
}

impl Default for FileEncoder {
    fn default() -> (encoder: Self)
        ensures
            encoder == FileEncoder::fallback(),
    {
        FileEncoder::Png { compressionlevel: CompressionLevel::Default }
    }
}

impl Clone for FileEncoder {
    fn clone(&self) -> (copy: Self)
        ensures
            copy == *self,
    {
        match self {
            FileEncoder::Jpg { quality } => FileEncoder::Jpg { quality: *quality },
            FileEncoder::Png { compressionlevel } => FileEncoder::Png {
                compressionlevel: *compressionlevel,
            },
            FileEncoder::Bmp => FileEncoder::Bmp,
            FileEncoder::WebP => FileEncoder::WebP,
        }
    }
}

impl FileEncoder {
    /// The encoder used when nothing else is asked for: PNG at default compression.
    pub open spec fn fallback() -> FileEncoder {
        FileEncoder::Png { compressionlevel: CompressionLevel::Default }
    }

    /// The variant's name, as it is written in source.
    pub open spec fn name_chars(self) -> Seq<char> {
        match self {
            FileEncoder::Jpg { .. } => seq!['J', 'p', 'g'],
            FileEncoder::Png { .. } => seq!['P', 'n', 'g'],
            FileEncoder::Bmp => seq!['B', 'm', 'p'],
            FileEncoder::WebP => seq!['W', 'e', 'b', 'P'],
        }
    }

    /// The canonical extension of the variant, without the dot.
    pub open spec fn ext_chars(self) -> Seq<char> {
        match self {
            FileEncoder::Jpg { .. } => seq!['j', 'p', 'g'],
            FileEncoder::Png { .. } => seq!['p', 'n', 'g'],
            FileEncoder::Bmp => seq!['b', 'm', 'p'],
            FileEncoder::WebP => seq!['w', 'e', 'b', 'p'],
        }
    }

    /// The options are in their domain: a JPEG quality is at most 100.
    pub open spec fn valid(self) -> bool {
        self matches FileEncoder::Jpg { quality } ==> quality <= QUALITY_MAX
    }

    /// What a settings panel shows for the variant: a quality slider for `Jpg`,
    /// nothing for the others.
    pub open spec fn slider_of(self) -> Option<QualitySlider> {
        match self {
            FileEncoder::Jpg { quality } => Some(
                QualitySlider { value: quality, min: QUALITY_MIN, max: QUALITY_MAX },
            ),
            _ => None,
        }
    }

    /// The encoder after its quality slider left `value`: a `Jpg` holds the value
    /// as it was left; the others have no slider and stay. The variant stays in
    /// either case. Nothing is held to the domain here: the slider keeps to its
    /// ends, and the codec is handed a quality in its own range at encoding.
    pub open spec fn with_quality(self, value: u32) -> FileEncoder {
        match self {
            FileEncoder::Jpg { .. } => FileEncoder::Jpg { quality: value },
            _ => self,
        }
    }

    /// Whether the options are in their domain.
    pub fn is_valid(&self) -> (valid: bool)
        ensures
            valid == self.valid(),
    {
        match self {
            FileEncoder::Jpg { quality } => *quality <= QUALITY_MAX,
            _ => true,
        }
    }

    /// The slider that a settings panel shows for the variant, if it shows one.
    pub fn quality_slider(&self) -> (slider: Option<QualitySlider>)
        ensures
            slider == self.slider_of(),
    {
        match self {
            FileEncoder::Jpg { quality } => Some(
                QualitySlider { value: *quality, min: QUALITY_MIN, max: QUALITY_MAX },
            ),
            _ => None,
        }
    }

    /// Takes over the value that the quality slider left.
    pub fn set_quality(&mut self, value: u32)
        ensures
            *final(self) == old(self).with_quality(value),
            *old(self) is Jpg && value <= QUALITY_MAX ==> final(self).valid(),
            !(*old(self) is Jpg) ==> *final(self) == *old(self),
    {
        match self {
            FileEncoder::Jpg { .. } => {
                *self = FileEncoder::Jpg { quality: value };
            },
            _ => {},
        }
    }

    /// The variant's name: `Jpg`, `Png`, `Bmp` or `WebP`.
    pub fn name(&self) -> (name: String)
        ensures
            name@ == self.name_chars(),
    {
        proof {
            reveal_strlit("Jpg");
            reveal_strlit("Png");
            reveal_strlit("Bmp");
            reveal_strlit("WebP");
        }
        let name = match self {
            FileEncoder::Jpg { .. } => "Jpg",
            FileEncoder::Png { .. } => "Png",
            FileEncoder::Bmp => "Bmp",
            FileEncoder::WebP => "WebP",
        };
        name.to_owned()
    }

    /// The canonical lowercase extension: `jpg`, `png`, `bmp` or `webp`.
    pub fn ext(&self) -> (ext: String)
        ensures
            ext@ == self.ext_chars(),
    {
        proof {
            reveal_strlit("jpg");
            reveal_strlit("png");
            reveal_strlit("bmp");
            reveal_strlit("webp");
        }
        let ext = match self {
            FileEncoder::Jpg { .. } => "jpg",
            FileEncoder::Png { .. } => "png",
            FileEncoder::Bmp => "bmp",
            FileEncoder::WebP => "webp",
        };
        ext.to_owned()
    }
}

} // verus!
