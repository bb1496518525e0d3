//! The per-hardware-model key grids and special zones.
//!
//! Each supported model supplies a rectangular grid of emulated keys and
//! three margin sets, applied to the touch surface's raw bounding box to
//! produce the numpad hit-box, the numlock toggle zone and the calculator
//! zone. Models without a numlock or calculator zone get a disjoint dummy
//! box that can never contain a real touch point.

use vstd::prelude::*;

use crate::geometry::{BBox, Margins, Point};
use crate::keys::Key;

verus! {

/// The hardware models with a known layout.
#[derive(Clone, Copy, Debug, PartialEq, Eq, Hash, Structural)]
pub enum SupportedLayout {
    UX433FA,
    M433IA,
    UX581,
    GX701,
    GX531,
    UM5302TA,
}

/// Failure to select a layout.
#[derive(Clone, Copy, Debug, PartialEq, Eq, Structural)]
pub enum LayoutError {
    /// The given name is not the name of any supported layout.
    UnknownLayout,
}

/// The layout, if any, whose name is `name`.
pub open spec fn spec_from_name(name: Seq<char>) -> Result<SupportedLayout, LayoutError> {
    if name == "UX433FA"@ {
        Ok(SupportedLayout::UX433FA)
    } else if name == "M433IA"@ {
        Ok(SupportedLayout::M433IA)
    } else if name == "UX581"@ {
        Ok(SupportedLayout::UX581)
    } else if name == "GX701"@ {
        Ok(SupportedLayout::GX701)
    } else if name == "GX531"@ {
        Ok(SupportedLayout::GX531)
    } else if name == "UM5302TA"@ {
        Ok(SupportedLayout::UM5302TA)
    } else {
        Err(LayoutError::UnknownLayout)
    }
}

impl SupportedLayout {
    /// Select a layout by its name; an unrecognized name is a distinct
    /// error, not a fallback.
    pub fn from_name(name: &str) -> (r: Result<SupportedLayout, LayoutError>)
        ensures
            r == spec_from_name(name@),
    {
        let owned: String = name.to_owned();
        if owned == String::from_str("UX433FA") {
            Ok(SupportedLayout::UX433FA)
        } else if owned == String::from_str("M433IA") {
            Ok(SupportedLayout::M433IA)
        } else if owned == String::from_str("UX581") {
            Ok(SupportedLayout::UX581)
        } else if owned == String::from_str("GX701") {
            Ok(SupportedLayout::GX701)
        } else if owned == String::from_str("GX531") {
            Ok(SupportedLayout::GX531)
        } else if owned == String::from_str("UM5302TA") {
            Ok(SupportedLayout::UM5302TA)
        } else {
            Err(LayoutError::UnknownLayout)
        }
    }
}

/// A key needs composite emission when pressing it alone would not produce
/// the intended symbol; the only such key is the top-row `5`, emitted
/// together with a shift key to yield `%`.
pub open spec fn spec_needs_multikey(key: Key) -> bool {
    key == Key::Digit5
}

/// The pair emitted for a composite key: the shift modifier first, then the
/// key itself.
pub open spec fn spec_multikeys(key: Key) -> Seq<Key> {
    seq![Key::LeftShift, key]
}

/// The grid and special zones of one hardware model, in device coordinates.
pub struct NumpadLayout {
    /// The matrix of keys, row-major.
    pub keys: Vec<Vec<Key>>,
    /// The hit-box of the key grid.
    pub numpad_bbox: BBox,
    /// The numlock toggle zone, or a disjoint dummy.
    pub numlock_bbox: BBox,
    /// The calculator zone, or a disjoint dummy.
    pub calc_bbox: BBox,
    /// The width of one key cell.
    pub key_width: i64,
    /// The height of one key cell.
    pub key_height: i64,
}

impl NumpadLayout {
    /// The key grid as a sequence of rows.
    pub open spec fn spec_grid(self) -> Seq<Seq<Key>> {
        self.keys@.map_values(|row: Vec<Key>| row@)
    }

    pub open spec fn spec_rows(self) -> int {
        self.keys@.len() as int
    }

    pub open spec fn spec_cols(self) -> int {
        self.keys@[0]@.len() as int
    }

    /// A usable layout: a non-empty rectangular grid, a well-formed hit-box
    /// at least one cell wide and tall, and cell dimensions derived from the
    /// hit-box and the grid size.
    pub open spec fn spec_wf(self) -> bool {
        &&& 0 < self.spec_rows()
        &&& 0 < self.spec_cols()
        &&& forall|i: int|
            0 <= i < self.spec_rows() ==> #[trigger] self.keys@[i]@.len() == self.spec_cols()
        &&& self.numpad_bbox.spec_wf()
        &&& 1 <= self.key_width
        &&& 1 <= self.key_height
        &&& self.key_width == self.numpad_bbox.spec_xrange() / self.spec_cols()
        &&& self.key_height == self.numpad_bbox.spec_yrange() / self.spec_rows()
    }

    /// Column index of `p` by integer-divided offset from the hit-box edge.
    pub open spec fn spec_col_of(self, p: Point) -> int {
        (p.x - self.numpad_bbox.minx) / (self.key_width as int)
    }

    /// Row index of `p` by integer-divided offset from the hit-box edge.
    pub open spec fn spec_row_of(self, p: Point) -> int {
        (p.y - self.numpad_bbox.miny) / (self.key_height as int)
    }

    /// The key under a touch point: nothing outside the hit-box, otherwise
    /// the grid entry at the integer-divided offsets, clamped into the grid
    /// as a safety net for the remainder strip at the far edges.
    pub open spec fn spec_cell(self, p: Point) -> Option<Key> {
        if !self.numpad_bbox.spec_contains(p) {
            None
        } else {
            let col0 = self.spec_col_of(p);
            let row0 = self.spec_row_of(p);
            let col = if col0 < self.spec_cols() { col0 } else { self.spec_cols() - 1 };
            let row = if row0 < self.spec_rows() { row0 } else { self.spec_rows() - 1 };
            Some(self.spec_grid()[row][col])
        }
    }

    /// A reference to the layout's key grid.
    pub fn keys(&self) -> (r: &Vec<Vec<Key>>)
        ensures
            r == &self.keys,
    {
        &self.keys
    }

    /// Whether `key` must be emitted as a composite of two keys.
    pub fn needs_multikey(&self, key: Key) -> (r: bool)
        ensures
            r == spec_needs_multikey(key),
    {
        key == Key::Digit5
    }

    /// The two keys emitted together for a composite key.
    pub fn multikeys(&self, key: Key) -> (r: [Key; 2])
        requires
            spec_needs_multikey(key),
        ensures
            r@ == spec_multikeys(key),
    {
        let r: [Key; 2] = [Key::LeftShift, Key::Digit5];
        proof {
            assert(r@ =~= spec_multikeys(key));
        }
        r
    }

    /// The key at `pos`, if `pos` is inside the numpad hit-box.
    pub fn get_key(&self, pos: Point) -> (r: Option<Key>)
        requires
            self.spec_wf(),
        ensures
            r == self.spec_cell(pos),
    {
        if !self.numpad_bbox.contains(pos) {
            return None;
        }
        let nrows: usize = self.keys.len();
        let ncols: usize = self.keys[0].len();
        let col0: i64 = (pos.x as i64 - self.numpad_bbox.minx as i64) / self.key_width;
        let row0: i64 = (pos.y as i64 - self.numpad_bbox.miny as i64) / self.key_height;
        proof {
            lemma_div_nonneg(pos.x - self.numpad_bbox.minx, self.key_width as int);
            lemma_div_nonneg(pos.y - self.numpad_bbox.miny, self.key_height as int);
        }
        let col: usize = if (col0 as usize) < ncols { col0 as usize } else { ncols - 1 };
        let row: usize = if (row0 as usize) < nrows { row0 as usize } else { nrows - 1 };
        Some(self.keys[row][col])
    }

    /// Whether `pos` lies in the numlock toggle zone.
    pub fn in_numlock_bbox(&self, pos: Point) -> (r: bool)
        ensures
            r == self.numlock_bbox.spec_contains(pos),
    {
        self.numlock_bbox.contains(pos)
    }

    /// Whether `pos` lies in the calculator zone.
    pub fn in_calc_bbox(&self, pos: Point) -> (r: bool)
        ensures
            r == self.calc_bbox.spec_contains(pos),
    {
        self.calc_bbox.contains(pos)
    }
}

/// The key grid of each hardware model, row-major.
pub open spec fn spec_model_grid(model: SupportedLayout) -> Seq<Seq<Key>> {
    match model {
        SupportedLayout::UX433FA => seq![
            seq![Key::Kp7, Key::Kp8, Key::Kp9, Key::KpSlash, Key::Backspace],
            seq![Key::Kp4, Key::Kp5, Key::Kp6, Key::KpAsterisk, Key::Backspace],
            seq![Key::Kp1, Key::Kp2, Key::Kp3, Key::KpMinus, Key::KpEnter],
            seq![Key::Kp0, Key::Kp0, Key::KpDot, Key::KpPlus, Key::KpEnter],
        ],
        SupportedLayout::M433IA => seq![
            seq![Key::Kp7, Key::Kp8, Key::Kp9, Key::KpSlash, Key::Backspace],
            seq![Key::Kp4, Key::Kp5, Key::Kp6, Key::KpAsterisk, Key::Backspace],
            seq![Key::Kp1, Key::Kp2, Key::Kp3, Key::KpMinus, Key::Digit5],
            seq![Key::Kp0, Key::KpDot, Key::KpEnter, Key::KpPlus, Key::Equal],
        ],
        SupportedLayout::UX581 => seq![
            seq![Key::KpEqual, Key::Digit5, Key::Backspace, Key::Backspace],
            seq![Key::Kp7, Key::Kp8, Key::Kp9, Key::KpSlash],
            seq![Key::Kp4, Key::Kp5, Key::Kp6, Key::KpAsterisk],
            seq![Key::Kp1, Key::Kp2, Key::Kp3, Key::KpMinus],
            seq![Key::Kp0, Key::KpDot, Key::KpEnter, Key::KpPlus],
        ],
        SupportedLayout::GX701 => seq![
            seq![Key::Calc, Key::KpSlash, Key::KpAsterisk, Key::KpMinus],
            seq![Key::Kp7, Key::Kp8, Key::Kp9, Key::KpPlus],
            seq![Key::Kp4, Key::Kp5, Key::Kp6, Key::KpPlus],
            seq![Key::Kp1, Key::Kp2, Key::Kp3, Key::KpEnter],
            seq![Key::Kp0, Key::Kp0, Key::KpDot, Key::KpEnter],
        ],
        SupportedLayout::GX531 => seq![
            seq![Key::Backslash, Key::KpSlash, Key::KpAsterisk, Key::KpMinus],
            seq![Key::Kp7, Key::Kp8, Key::Kp9, Key::KpPlus],
            seq![Key::Kp4, Key::Kp5, Key::Kp6, Key::KpPlus],
            seq![Key::Kp1, Key::Kp2, Key::Kp3, Key::KpEnter],
            seq![Key::Kp0, Key::Kp0, Key::KpDot, Key::KpEnter],
        ],
        SupportedLayout::UM5302TA => seq![
            seq![Key::Kp7, Key::Kp8, Key::Kp9, Key::KpSlash, Key::Backspace],
            seq![Key::Kp4, Key::Kp5, Key::Kp6, Key::KpAsterisk, Key::Backspace],
            seq![Key::Kp1, Key::Kp2, Key::Kp3, Key::KpMinus, Key::Digit5],
            seq![Key::Kp0, Key::KpDot, Key::KpEnter, Key::KpPlus, Key::Equal],
        ],
    }
}

/// The margins that cut each model's numpad hit-box out of the raw touch
/// surface.
pub open spec fn spec_model_margins(model: SupportedLayout) -> Margins {
    match model {
        SupportedLayout::UX433FA => Margins { top: 100, bottom: 25, left: 50, right: 50 },
        SupportedLayout::M433IA => Margins { top: 100, bottom: 25, left: 50, right: 50 },
        SupportedLayout::UX581 => Margins { top: 100, bottom: 25, left: 25, right: 25 },
        SupportedLayout::GX701 => Margins { top: 25, bottom: 25, left: 25, right: 25 },
        SupportedLayout::GX531 => Margins { top: 5, bottom: 5, left: 5, right: 5 },
        SupportedLayout::UM5302TA => Margins { top: 100, bottom: 25, left: 50, right: 50 },
    }
}

/// Whether the model has real numlock and calculator zones; models without
/// them get disjoint dummy boxes instead.
pub open spec fn spec_model_has_zones(model: SupportedLayout) -> bool {
    match model {
        SupportedLayout::GX701 => false,
        SupportedLayout::GX531 => false,
        _ => true,
    }
}

/// The margins of the numlock toggle zone: the top-right corner strip.
pub open spec fn spec_numlock_zone_margins() -> Margins {
    Margins { top: 0, bottom: 910, left: 950, right: 0 }
}

/// The margins of the calculator zone: the top-left corner strip.
pub open spec fn spec_calc_zone_margins() -> Margins {
    Margins { top: 0, bottom: 910, left: 0, right: 950 }
}

/// `r` is the layout of `model` built from the raw touch surface `bbox`.
pub open spec fn spec_layout_of_model(r: NumpadLayout, model: SupportedLayout, bbox: BBox) -> bool {
    &&& r.spec_wf()
    &&& r.spec_grid() == spec_model_grid(model)
    &&& r.numpad_bbox == bbox.spec_shrunk(spec_model_margins(model))
    &&& r.numlock_bbox == (if spec_model_has_zones(model) {
        bbox.spec_shrunk(spec_numlock_zone_margins())
    } else {
        bbox.spec_dummy()
    })
    &&& r.calc_bbox == (if spec_model_has_zones(model) {
        bbox.spec_shrunk(spec_calc_zone_margins())
    } else {
        bbox.spec_dummy()
    })
}

/// The raw touch surface box a layout can be built from: well-formed and
/// not degenerately small, so every key cell spans at least one coordinate
/// unit.
pub open spec fn spec_surface_ok(bbox: BBox) -> bool {
    &&& bbox.spec_wf()
    &&& bbox.spec_xrange() >= 64
    &&& bbox.spec_yrange() >= 64
}

/// Room past the surface's maximum corner for a disjoint dummy box.
pub open spec fn spec_dummy_fits(bbox: BBox) -> bool {
    bbox.maxx <= i32::MAX - 2 && bbox.maxy <= i32::MAX - 2
}

impl NumpadLayout {
    /// Assemble a layout from a grid and its three boxes, deriving the cell
    /// dimensions from the hit-box and the grid size.
    fn create(keys: Vec<Vec<Key>>, numpad_bbox: BBox, numlock_bbox: BBox, calc_bbox: BBox) -> (r:
        Self)
        requires
            0 < keys@.len(),
            0 < keys@[0]@.len(),
            forall|i: int| 0 <= i < keys@.len() ==> #[trigger] keys@[i]@.len() == keys@[0]@.len(),
            numpad_bbox.spec_wf(),
            numpad_bbox.spec_xrange() >= keys@[0]@.len(),
            numpad_bbox.spec_yrange() >= keys@.len(),
        ensures
            r.spec_wf(),
            r.keys@ == keys@,
            r.numpad_bbox == numpad_bbox,
            r.numlock_bbox == numlock_bbox,
            r.calc_bbox == calc_bbox,
    {
        let nrows: usize = keys.len();
        let ncols: usize = keys[0].len();
        let key_width: i64 = numpad_bbox.xrange() / (ncols as i64);
        let key_height: i64 = numpad_bbox.yrange() / (nrows as i64);
        proof {
            lemma_div_at_least_one(numpad_bbox.spec_xrange(), ncols as int);
            lemma_div_at_least_one(numpad_bbox.spec_yrange(), nrows as int);
        }
        Self { keys, numpad_bbox, numlock_bbox, calc_bbox, key_width, key_height }
    }

    /// The grid and zones of the UX433FA model.
    pub fn ux433fa(bbox: BBox) -> (r: Self)
        requires
            spec_surface_ok(bbox),
        ensures
            spec_layout_of_model(r, SupportedLayout::UX433FA, bbox),
    {
        let keys: Vec<Vec<Key>> = vec![
            vec![Key::Kp7, Key::Kp8, Key::Kp9, Key::KpSlash, Key::Backspace],
            vec![Key::Kp4, Key::Kp5, Key::Kp6, Key::KpAsterisk, Key::Backspace],
            vec![Key::Kp1, Key::Kp2, Key::Kp3, Key::KpMinus, Key::KpEnter],
            vec![Key::Kp0, Key::Kp0, Key::KpDot, Key::KpPlus, Key::KpEnter],
        ];
        let margins = Margins { top: 100, bottom: 25, left: 50, right: 50 };
        proof {
            lemma_shrunk_usable(bbox, margins);
        }
        let r = Self::create(
            keys,
            bbox.apply_margins(margins),
            bbox.apply_margins(Margins { top: 0, bottom: 910, left: 950, right: 0 }),
            bbox.apply_margins(Margins { top: 0, bottom: 910, left: 0, right: 950 }),
        );
        proof {
            assert(r.spec_grid() =~~= spec_model_grid(SupportedLayout::UX433FA));
        }
        r
    }

    /// The grid and zones of the M433IA model.
    pub fn m433ia(bbox: BBox) -> (r: Self)
        requires
            spec_surface_ok(bbox),
        ensures
            spec_layout_of_model(r, SupportedLayout::M433IA, bbox),
    {
        let keys: Vec<Vec<Key>> = vec![
            vec![Key::Kp7, Key::Kp8, Key::Kp9, Key::KpSlash, Key::Backspace],
            vec![Key::Kp4, Key::Kp5, Key::Kp6, Key::KpAsterisk, Key::Backspace],
            vec![Key::Kp1, Key::Kp2, Key::Kp3, Key::KpMinus, Key::Digit5],
            vec![Key::Kp0, Key::KpDot, Key::KpEnter, Key::KpPlus, Key::Equal],
        ];
        let margins = Margins { top: 100, bottom: 25, left: 50, right: 50 };
        proof {
            lemma_shrunk_usable(bbox, margins);
        }
        let r = Self::create(
            keys,
            bbox.apply_margins(margins),
            bbox.apply_margins(Margins { top: 0, bottom: 910, left: 950, right: 0 }),
            bbox.apply_margins(Margins { top: 0, bottom: 910, left: 0, right: 950 }),
        );
        proof {
            assert(r.spec_grid() =~~= spec_model_grid(SupportedLayout::M433IA));
        }
        r
    }

    /// The grid and zones of the UX581 model.
    pub fn ux581(bbox: BBox) -> (r: Self)
        requires
            spec_surface_ok(bbox),
        ensures
            spec_layout_of_model(r, SupportedLayout::UX581, bbox),
    {
        let keys: Vec<Vec<Key>> = vec![
            vec![Key::KpEqual, Key::Digit5, Key::Backspace, Key::Backspace],
            vec![Key::Kp7, Key::Kp8, Key::Kp9, Key::KpSlash],
            vec![Key::Kp4, Key::Kp5, Key::Kp6, Key::KpAsterisk],
            vec![Key::Kp1, Key::Kp2, Key::Kp3, Key::KpMinus],
            vec![Key::Kp0, Key::KpDot, Key::KpEnter, Key::KpPlus],
        ];
        let margins = Margins { top: 100, bottom: 25, left: 25, right: 25 };
        proof {
            lemma_shrunk_usable(bbox, margins);
        }
        let r = Self::create(
            keys,
            bbox.apply_margins(margins),
            bbox.apply_margins(Margins { top: 0, bottom: 910, left: 950, right: 0 }),
            bbox.apply_margins(Margins { top: 0, bottom: 910, left: 0, right: 950 }),
        );
        proof {
            assert(r.spec_grid() =~~= spec_model_grid(SupportedLayout::UX581));
        }
        r
    }

    /// The grid of the GX701 model; it has no numlock or calculator zone.
    pub fn gx701(bbox: BBox) -> (r: Self)
        requires
            spec_surface_ok(bbox),
            spec_dummy_fits(bbox),
        ensures
            spec_layout_of_model(r, SupportedLayout::GX701, bbox),
    {
        let keys: Vec<Vec<Key>> = vec![
            vec![Key::Calc, Key::KpSlash, Key::KpAsterisk, Key::KpMinus],
            vec![Key::Kp7, Key::Kp8, Key::Kp9, Key::KpPlus],
            vec![Key::Kp4, Key::Kp5, Key::Kp6, Key::KpPlus],
            vec![Key::Kp1, Key::Kp2, Key::Kp3, Key::KpEnter],
            vec![Key::Kp0, Key::Kp0, Key::KpDot, Key::KpEnter],
        ];
        let margins = Margins { top: 25, bottom: 25, left: 25, right: 25 };
        proof {
            lemma_shrunk_usable(bbox, margins);
        }
        // these zones are not present on this model; a box outside the
        // touch surface can never be activated.
        let r = Self::create(
            keys,
            bbox.apply_margins(margins),
            bbox.disjoint_dummy(),
            bbox.disjoint_dummy(),
        );
        proof {
            assert(r.spec_grid() =~~= spec_model_grid(SupportedLayout::GX701));
        }
        r
    }

    /// The grid of the GX531 model; it has no numlock or calculator zone.
    pub fn gx531(bbox: BBox) -> (r: Self)
        requires
            spec_surface_ok(bbox),
            spec_dummy_fits(bbox),
        ensures
            spec_layout_of_model(r, SupportedLayout::GX531, bbox),
    {
        let keys: Vec<Vec<Key>> = vec![
            vec![Key::Backslash, Key::KpSlash, Key::KpAsterisk, Key::KpMinus],
            vec![Key::Kp7, Key::Kp8, Key::Kp9, Key::KpPlus],
            vec![Key::Kp4, Key::Kp5, Key::Kp6, Key::KpPlus],
            vec![Key::Kp1, Key::Kp2, Key::Kp3, Key::KpEnter],
            vec![Key::Kp0, Key::Kp0, Key::KpDot, Key::KpEnter],
        ];
        let margins = Margins { top: 5, bottom: 5, left: 5, right: 5 };
        proof {
            lemma_shrunk_usable(bbox, margins);
        }
        // these zones are not present on this model; a box outside the
        // touch surface can never be activated.
        let r = Self::create(
            keys,
            bbox.apply_margins(margins),
            bbox.disjoint_dummy(),
            bbox.disjoint_dummy(),
        );
        proof {
            assert(r.spec_grid() =~~= spec_model_grid(SupportedLayout::GX531));
        }
        r
    }

    /// The grid and zones of the UM5302TA model.
    pub fn um5302ta(bbox: BBox) -> (r: Self)
        requires
            spec_surface_ok(bbox),
        ensures
            spec_layout_of_model(r, SupportedLayout::UM5302TA, bbox),
    {
        let keys: Vec<Vec<Key>> = vec![
            vec![Key::Kp7, Key::Kp8, Key::Kp9, Key::KpSlash, Key::Backspace],
            vec![Key::Kp4, Key::Kp5, Key::Kp6, Key::KpAsterisk, Key::Backspace],
            vec![Key::Kp1, Key::Kp2, Key::Kp3, Key::KpMinus, Key::Digit5],
            vec![Key::Kp0, Key::KpDot, Key::KpEnter, Key::KpPlus, Key::Equal],
        ];
        let margins = Margins { top: 100, bottom: 25, left: 50, right: 50 };
        proof {
            lemma_shrunk_usable(bbox, margins);
        }
        let r = Self::create(
            keys,
            bbox.apply_margins(margins),
            bbox.apply_margins(Margins { top: 0, bottom: 910, left: 950, right: 0 }),
            bbox.apply_margins(Margins { top: 0, bottom: 910, left: 0, right: 950 }),
        );
        proof {
            assert(r.spec_grid() =~~= spec_model_grid(SupportedLayout::UM5302TA));
        }
        r
    }

    /// Build the layout of a supported model from the raw touch surface box.
    pub fn from_supported_layout(layout: &SupportedLayout, bbox: BBox) -> (r: Self)
        requires
            spec_surface_ok(bbox),
            !spec_model_has_zones(*layout) ==> spec_dummy_fits(bbox),
        ensures
            spec_layout_of_model(r, *layout, bbox),
    {
        match layout {
            SupportedLayout::UX433FA => Self::ux433fa(bbox),
            SupportedLayout::M433IA => Self::m433ia(bbox),
            SupportedLayout::UX581 => Self::ux581(bbox),
            SupportedLayout::GX701 => Self::gx701(bbox),
            SupportedLayout::GX531 => Self::gx531(bbox),
            SupportedLayout::UM5302TA => Self::um5302ta(bbox),
        }
    }
}

/// Dividing a value by a smaller positive one yields at least one.
proof fn lemma_div_at_least_one(a: int, b: int)
    requires
        1 <= b <= a,
    ensures
        1 <= a / b,
{
    assert(1 <= a / b) by (nonlinear_arith)
        requires
            1 <= b <= a,
    ;
}

/// Margins this small leave a shrunken box that is still well-formed and
/// at least five cells wide and tall on a surface of at least 64 by 64.
proof fn lemma_shrunk_usable(b: BBox, m: Margins)
    requires
        b.spec_wf(),
        m.spec_wf(),
        b.spec_xrange() >= 64,
        b.spec_yrange() >= 64,
        m.left + m.right <= 200,
        m.top + m.bottom <= 200,
    ensures
        b.spec_shrunk(m).spec_wf(),
        b.spec_shrunk(m).spec_xrange() >= 5,
        b.spec_shrunk(m).spec_yrange() >= 5,
{
    let xr = b.spec_xrange();
    let yr = b.spec_yrange();
    assert(0 <= m.left * xr / 1000 && 0 <= m.right * xr / 1000 && m.left * xr / 1000 + m.right * xr
        / 1000 <= xr - 5) by (nonlinear_arith)
        requires
            0 <= m.left,
            0 <= m.right,
            m.left + m.right <= 200,
            xr >= 64,
    ;
    assert(0 <= m.top * yr / 1000 && 0 <= m.bottom * yr / 1000 && m.top * yr / 1000 + m.bottom * yr
        / 1000 <= yr - 5) by (nonlinear_arith)
        requires
            0 <= m.top,
            0 <= m.bottom,
            m.top + m.bottom <= 200,
            yr >= 64,
    ;
}

/// A non-negative value divided by a positive one yields a non-negative
/// quotient.
proof fn lemma_div_nonneg(a: int, b: int)
    requires
        0 <= a,
        1 <= b,
    ensures
        0 <= a / b,
{
    assert(0 <= a / b) by (nonlinear_arith)
        requires
            0 <= a,
            1 <= b,
    ;
}

/// Hit-testing the numpad grid: outside the hit-box no key is returned;
/// inside it, whenever the integer-divided offsets land within the grid,
/// the key at exactly those offsets is returned.
pub proof fn lemma_cell_of_hit_box(layout: NumpadLayout, p: Point)
    requires
        layout.spec_wf(),
    ensures
        !layout.numpad_bbox.spec_contains(p) ==> layout.spec_cell(p) is None,
        layout.numpad_bbox.spec_contains(p) && layout.spec_row_of(p) < layout.spec_rows()
            && layout.spec_col_of(p) < layout.spec_cols() ==> layout.spec_cell(p)
            == Some(layout.spec_grid()[layout.spec_row_of(p)][layout.spec_col_of(p)]),
{
    if layout.numpad_bbox.spec_contains(p) {
        lemma_div_nonneg(p.x - layout.numpad_bbox.minx, layout.key_width as int);
        lemma_div_nonneg(p.y - layout.numpad_bbox.miny, layout.key_height as int);
    }
}

} // verus!
