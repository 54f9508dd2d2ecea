//! The detector classes and the constants bound to each of them.

use vstd::prelude::*;

verus! {

/// One object class that the watcher looks for.
#[derive(Clone, Copy, Debug, PartialEq, Eq, Structural)]
pub enum DetectorClass {
    Face,
    Eye,
    Body,
    CatFace,
}

/// Width and height of a match, in pixels. `0 x 0` stands for "no bound".
#[derive(Clone, Copy, Debug, PartialEq, Eq, Structural)]
pub struct BoxSize {
    pub width: i32,
    pub height: i32,
}

/// Parameters handed to the detection engine for one scan. The scale step is
/// the fraction `scale_num / scale_den`.
#[derive(Clone, Copy, Debug, PartialEq, Eq, Structural)]
pub struct ScanParams {
    pub scale_num: u32,
    pub scale_den: u32,
    pub min_neighbors: i32,
    pub flags: i32,
    pub min_size: BoxSize,
    pub max_size: BoxSize,
}

/// A colour by its blue, green and red channels.
#[derive(Clone, Copy, Debug, PartialEq, Eq, Structural)]
pub struct Color {
    pub blue: u8,
    pub green: u8,
    pub red: u8,
}

/// How a bounding box is drawn.
#[derive(Clone, Copy, Debug, PartialEq, Eq, Structural)]
pub struct Outline {
    pub color: Color,
    pub thickness: i32,
    pub line_type: i32,
    pub shift: i32,
}

/// The classes in the order in which a frame passes through their detectors.
pub open spec fn scan_order() -> Seq<DetectorClass> {
    seq![DetectorClass::Face, DetectorClass::Eye, DetectorClass::Body, DetectorClass::CatFace]
}

impl DetectorClass {
    /// Position of the class in the scan order.
    pub open spec fn spec_position(self) -> int {
        match self {
            DetectorClass::Face => 0,
            DetectorClass::Eye => 1,
            DetectorClass::Body => 2,
            DetectorClass::CatFace => 3,
        }
    }

    /// The class scanned after this one, if any.
    pub open spec fn spec_successor(self) -> Option<DetectorClass> {
        if self.spec_position() + 1 < scan_order().len() {
            Some(scan_order()[self.spec_position() + 1])
        } else {
            None
        }
    }

    pub open spec fn spec_params(self) -> ScanParams {
        ScanParams {
            scale_num: 11,
            scale_den: 10,
            min_neighbors: if self == DetectorClass::Eye { 70 } else { 5 },
            flags: 1,
            min_size: match self {
                DetectorClass::Eye => BoxSize { width: 5, height: 5 },
                DetectorClass::Body => BoxSize { width: 50, height: 100 },
                _ => BoxSize { width: 0, height: 0 },
            },
            max_size: BoxSize { width: 0, height: 0 },
        }
    }

    pub open spec fn spec_color(self) -> Color {
        match self {
            DetectorClass::Face => Color { blue: 0, green: 255, red: 0 },
            DetectorClass::Eye => Color { blue: 255, green: 0, red: 0 },
            DetectorClass::Body => Color { blue: 0, green: 0, red: 255 },
            DetectorClass::CatFace => Color { blue: 255, green: 0, red: 0 },
        }
    }

    pub open spec fn spec_outline(self) -> Outline {
        Outline { color: self.spec_color(), thickness: 2, line_type: 8, shift: 0 }
    }

    /// The word that starts the file name of a snapshot of this class.
    pub open spec fn spec_label(self) -> Seq<char> {
        match self {
            DetectorClass::Face => "face"@,
            DetectorClass::Eye => "eye"@,
            DetectorClass::Body => "body"@,
            DetectorClass::CatFace => "cat"@,
        }
    }

    /// The line shown to the user when the class fires.
    pub open spec fn spec_notice(self) -> Seq<char> {
        match self {
            DetectorClass::Face => "Face detected!"@,
            DetectorClass::Eye => "Eye detected!"@,
            DetectorClass::Body => "Body detected!"@,
            DetectorClass::CatFace => "Cat detected!"@,
        }
    }

    /// The logical name of the class's definition, which is also the name of
    /// its staged file.
    pub open spec fn spec_definition_name(self) -> Seq<char> {
        match self {
            DetectorClass::Face => "haarcascade_frontalface_alt.xml"@,
            DetectorClass::Eye => "haarcascade_eye.xml"@,
            DetectorClass::Body => "haarcascade_fullbody.xml"@,
            DetectorClass::CatFace => "haarcascade_frontalcatface_extended.xml"@,
        }
    }

    /// The class whose detector sees a frame first.
    pub fn first() -> (class: DetectorClass)
        ensures
            class == scan_order()[0],
    {
        DetectorClass::Face
    }

    /// All classes, in scan order.
    pub fn all() -> (classes: Vec<DetectorClass>)
        ensures
            classes@ == scan_order(),
    {
        let classes = vec![
            DetectorClass::Face,
            DetectorClass::Eye,
            DetectorClass::Body,
            DetectorClass::CatFace,
        ];
        assert(classes@ =~= scan_order());
        classes
    }

    pub fn position(self) -> (index: usize)
        ensures
            index == self.spec_position(),
            index < scan_order().len(),
            scan_order()[index as int] == self,
    {
        match self {
            DetectorClass::Face => 0,
            DetectorClass::Eye => 1,
            DetectorClass::Body => 2,
            DetectorClass::CatFace => 3,
        }
    }

    pub fn successor(self) -> (next: Option<DetectorClass>)
        ensures
            next == self.spec_successor(),
    {
        match self {
            DetectorClass::Face => Some(DetectorClass::Eye),
            DetectorClass::Eye => Some(DetectorClass::Body),
            DetectorClass::Body => Some(DetectorClass::CatFace),
            DetectorClass::CatFace => None,
        }
    }

    /// The fixed scan parameters of the class.
    pub fn params(self) -> (params: ScanParams)
        ensures
            params == self.spec_params(),
    {
        let zero = BoxSize { width: 0, height: 0 };
        match self {
            DetectorClass::Face | DetectorClass::CatFace => ScanParams {
                scale_num: 11,
                scale_den: 10,
                min_neighbors: 5,
                flags: 1,
                min_size: zero,
                max_size: zero,
            },
            DetectorClass::Eye => ScanParams {
                scale_num: 11,
                scale_den: 10,
                min_neighbors: 70,
                flags: 1,
                min_size: BoxSize { width: 5, height: 5 },
                max_size: zero,
            },
            DetectorClass::Body => ScanParams {
                scale_num: 11,
                scale_den: 10,
                min_neighbors: 5,
                flags: 1,
                min_size: BoxSize { width: 50, height: 100 },
                max_size: zero,
            },
        }
    }

    /// The colour in which the class's matches are outlined.
    pub fn color(self) -> (color: Color)
        ensures
            color == self.spec_color(),
    {
        match self {
            DetectorClass::Face => Color { blue: 0, green: 255, red: 0 },
            DetectorClass::Eye | DetectorClass::CatFace => Color { blue: 255, green: 0, red: 0 },
            DetectorClass::Body => Color { blue: 0, green: 0, red: 255 },
        }
    }

    pub fn outline(self) -> (outline: Outline)
        ensures
            outline == self.spec_outline(),
    {
        Outline { color: self.color(), thickness: 2, line_type: 8, shift: 0 }
    }

    pub fn label(self) -> (label: &'static str)
        ensures
            label@ == self.spec_label(),
    {
        match self {
            DetectorClass::Face => "face",
            DetectorClass::Eye => "eye",
            DetectorClass::Body => "body",
            DetectorClass::CatFace => "cat",
        }
    }

    pub fn notice(self) -> (notice: &'static str)
        ensures
            notice@ == self.spec_notice(),
    {
        match self {
            DetectorClass::Face => "Face detected!",
            DetectorClass::Eye => "Eye detected!",
            DetectorClass::Body => "Body detected!",
            DetectorClass::CatFace => "Cat detected!",
        }
    }

    pub fn definition_name(self) -> (name: &'static str)
        ensures
            name@ == self.spec_definition_name(),
    {
        match self {
            DetectorClass::Face => "haarcascade_frontalface_alt.xml",
            DetectorClass::Eye => "haarcascade_eye.xml",
            DetectorClass::Body => "haarcascade_fullbody.xml",
            DetectorClass::CatFace => "haarcascade_frontalcatface_extended.xml",
        }
    }
}

/// No two classes share a label, so a label names its class.
pub proof fn law_labels_distinct(a: DetectorClass, b: DetectorClass)
    requires
        a != b,
    ensures
        a.spec_label() != b.spec_label(),
        a.spec_label().len() > 0,
        b.spec_label().len() > 0,
        a.spec_label()[0] != b.spec_label()[0],
{
    reveal_strlit("face");
    reveal_strlit("eye");
    reveal_strlit("body");
    reveal_strlit("cat");
    assert(a.spec_label()[0] != b.spec_label()[0]);
}

/// No two classes share a definition name, so no two are staged under one
/// file name.
pub proof fn law_definition_names_distinct(a: DetectorClass, b: DetectorClass)
    requires
        a != b,
    ensures
        a.spec_definition_name() != b.spec_definition_name(),
{
    reveal_strlit("haarcascade_frontalface_alt.xml");
    reveal_strlit("haarcascade_eye.xml");
    reveal_strlit("haarcascade_fullbody.xml");
    reveal_strlit("haarcascade_frontalcatface_extended.xml");
    assert(a.spec_definition_name().len() != b.spec_definition_name().len());
}

} // verus!
