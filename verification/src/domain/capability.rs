//! What a printer can do.
use vstd::prelude::*;
use vstd::string::*;

use crate::error::{outcome, PrintError, PrintErrorView, PrintResult};
use crate::model::views;
use crate::text::{blank, is_blank, same};

verus! {

#[derive(Debug, Clone, Copy, PartialEq, Eq, Structural)]
pub enum ColorMode {
    Monochrome,
    Color,
}

#[derive(Debug, Clone, Copy, PartialEq, Eq, Structural)]
pub enum DuplexMode {
    OneSided,
    TwoSidedLongEdge,
    TwoSidedShortEdge,
}

#[derive(Debug, Clone, Copy, PartialEq, Eq, Structural)]
pub enum Orientation {
    Portrait,
    Landscape,
}

/// A sheet that a printer can feed.
#[derive(Debug, PartialEq, Eq)]
pub struct MediaSize {
    pub name: String,
    pub width_microns: u32,
    pub height_microns: u32,
}

pub struct MediaSizeView {
    pub name: Seq<char>,
    pub width_microns: u32,
    pub height_microns: u32,
}

impl View for MediaSize {
    type V = MediaSizeView;

    open spec fn view(&self) -> MediaSizeView {
        MediaSizeView {
            name: self.name@,
            width_microns: self.width_microns,
            height_microns: self.height_microns,
        }
    }
}

impl Clone for MediaSize {
    fn clone(&self) -> (r: Self)
        ensures
            r@ == self@,
    {
        MediaSize {
            name: self.name.clone(),
            width_microns: self.width_microns,
            height_microns: self.height_microns,
        }
    }
}

/// The media size with these properties, if they make sense.
pub open spec fn media_size(
    name: Seq<char>,
    width_microns: u32,
    height_microns: u32,
) -> core::result::Result<MediaSizeView, PrintErrorView> {
    if is_blank(name) || width_microns == 0 || height_microns == 0 {
        Err(PrintErrorView::Invalid("invalid media size"@))
    } else {
        Ok(MediaSizeView { name, width_microns, height_microns })
    }
}

impl MediaSize {
    /// A named sheet with positive sides.
    pub fn new(name: &str, width_microns: u32, height_microns: u32) -> (r: PrintResult<Self>)
        ensures
            outcome(r) == media_size(name@, width_microns, height_microns),
    {
        if blank(name) || width_microns == 0 || height_microns == 0 {
            return Err(PrintError::Invalid("invalid media size".to_string()));
        }
        Ok(MediaSize { name: name.to_string(), width_microns, height_microns })
    }

    /// Whether both sheets have the same name and sides.
    pub fn same(&self, other: &Self) -> (r: bool)
        ensures
            r == (self@ == other@),
    {
        same(self.name.as_str(), other.name.as_str()) && self.width_microns == other.width_microns
            && self.height_microns == other.height_microns
    }
}

#[derive(Debug, Clone, Copy, PartialEq, Eq, Structural)]
pub struct PrintResolution {
    pub horizontal_dpi: u32,
    pub vertical_dpi: u32,
}

/// What a printer offers to those who print on it.
#[derive(Debug, PartialEq, Eq)]
pub struct PrinterCapabilities {
    pub media_sizes: Vec<MediaSize>,
    pub color_modes: Vec<ColorMode>,
    pub duplex_modes: Vec<DuplexMode>,
    pub resolutions: Vec<PrintResolution>,
    pub max_copies: u32,
    pub supports_page_ranges: bool,
    pub supports_collation: bool,
    pub accepted_document_types: Vec<String>,
}

pub struct PrinterCapabilitiesView {
    pub media_sizes: Seq<MediaSizeView>,
    pub color_modes: Seq<ColorMode>,
    pub duplex_modes: Seq<DuplexMode>,
    pub resolutions: Seq<PrintResolution>,
    pub max_copies: u32,
    pub supports_page_ranges: bool,
    pub supports_collation: bool,
    pub accepted_document_types: Seq<Seq<char>>,
}

impl View for PrinterCapabilities {
    type V = PrinterCapabilitiesView;

    open spec fn view(&self) -> PrinterCapabilitiesView {
        PrinterCapabilitiesView {
            media_sizes: views(self.media_sizes@),
            color_modes: self.color_modes@,
            duplex_modes: self.duplex_modes@,
            resolutions: self.resolutions@,
            max_copies: self.max_copies,
            supports_page_ranges: self.supports_page_ranges,
            supports_collation: self.supports_collation,
            accepted_document_types: views(self.accepted_document_types@),
        }
    }
}

/// A copy of a list of plain values.
pub fn copied<T: Copy>(items: &Vec<T>) -> (r: Vec<T>)
    ensures
        r@ == items@,
{
    let mut out: Vec<T> = Vec::new();
    let mut i: usize = 0;
    while i < items.len()
        invariant
            i <= items@.len(),
            out@ == items@.take(i as int),
        decreases items@.len() - i,
    {
        out.push(items[i]);
        i += 1;
    }
    assert(items@.take(i as int) =~= items@);
    out
}

/// A copy of a list of strings.
pub fn cloned_texts(items: &Vec<String>) -> (r: Vec<String>)
    ensures
        views(r@) == views(items@),
{
    let mut out: Vec<String> = Vec::new();
    let mut i: usize = 0;
    while i < items.len()
        invariant
            i <= items@.len(),
            out@.len() == i,
            forall|j: int| 0 <= j < i ==> (#[trigger] out@[j])@ == items@[j]@,
        decreases items@.len() - i,
    {
        out.push(items[i].clone());
        i += 1;
    }
    assert(views(out@) =~= views(items@));
    out
}

fn cloned_media(items: &Vec<MediaSize>) -> (r: Vec<MediaSize>)
    ensures
        views(r@) == views(items@),
{
    let mut out: Vec<MediaSize> = Vec::new();
    let mut i: usize = 0;
    while i < items.len()
        invariant
            i <= items@.len(),
            out@.len() == i,
            forall|j: int| 0 <= j < i ==> (#[trigger] out@[j])@ == items@[j]@,
        decreases items@.len() - i,
    {
        out.push(items[i].clone());
        i += 1;
    }
    assert(views(out@) =~= views(items@));
    out
}

impl Clone for PrinterCapabilities {
    fn clone(&self) -> (r: Self)
        ensures
            r@ == self@,
    {
        PrinterCapabilities {
            media_sizes: cloned_media(&self.media_sizes),
            color_modes: copied(&self.color_modes),
            duplex_modes: copied(&self.duplex_modes),
            resolutions: copied(&self.resolutions),
            max_copies: self.max_copies,
            supports_page_ranges: self.supports_page_ranges,
            supports_collation: self.supports_collation,
            accepted_document_types: cloned_texts(&self.accepted_document_types),
        }
    }
}

/// Whether two lists of strings are equal.
pub fn same_texts(a: &Vec<String>, b: &Vec<String>) -> (r: bool)
    ensures
        r == (views(a@) == views(b@)),
{
    if a.len() != b.len() {
        assert(views(a@).len() != views(b@).len());
        return false;
    }
    let mut i: usize = 0;
    while i < a.len()
        invariant
            a@.len() == b@.len(),
            i <= a@.len(),
            forall|j: int| 0 <= j < i ==> (#[trigger] a@[j])@ == b@[j]@,
        decreases a@.len() - i,
    {
        if !same(a[i].as_str(), b[i].as_str()) {
            assert(views(a@)[i as int] != views(b@)[i as int]);
            return false;
        }
        i += 1;
    }
    assert(views(a@) =~= views(b@));
    true
}

fn same_media(a: &Vec<MediaSize>, b: &Vec<MediaSize>) -> (r: bool)
    ensures
        r == (views(a@) == views(b@)),
{
    if a.len() != b.len() {
        assert(views(a@).len() != views(b@).len());
        return false;
    }
    let mut i: usize = 0;
    while i < a.len()
        invariant
            a@.len() == b@.len(),
            i <= a@.len(),
            forall|j: int| 0 <= j < i ==> (#[trigger] a@[j])@ == b@[j]@,
        decreases a@.len() - i,
    {
        if !a[i].same(&b[i]) {
            assert(views(a@)[i as int] != views(b@)[i as int]);
            return false;
        }
        i += 1;
    }
    assert(views(a@) =~= views(b@));
    true
}

fn same_colors(a: &Vec<ColorMode>, b: &Vec<ColorMode>) -> (r: bool)
    ensures
        r == (a@ == b@),
{
    if a.len() != b.len() {
        return false;
    }
    let mut i: usize = 0;
    while i < a.len()
        invariant
            a@.len() == b@.len(),
            i <= a@.len(),
            forall|j: int| 0 <= j < i ==> a@[j] == b@[j],
        decreases a@.len() - i,
    {
        if a[i] != b[i] {
            return false;
        }
        i += 1;
    }
    assert(a@ =~= b@);
    true
}

fn same_duplex(a: &Vec<DuplexMode>, b: &Vec<DuplexMode>) -> (r: bool)
    ensures
        r == (a@ == b@),
{
    if a.len() != b.len() {
        return false;
    }
    let mut i: usize = 0;
    while i < a.len()
        invariant
            a@.len() == b@.len(),
            i <= a@.len(),
            forall|j: int| 0 <= j < i ==> a@[j] == b@[j],
        decreases a@.len() - i,
    {
        if a[i] != b[i] {
            return false;
        }
        i += 1;
    }
    assert(a@ =~= b@);
    true
}

fn same_resolutions(a: &Vec<PrintResolution>, b: &Vec<PrintResolution>) -> (r: bool)
    ensures
        r == (a@ == b@),
{
    if a.len() != b.len() {
        return false;
    }
    let mut i: usize = 0;
    while i < a.len()
        invariant
            a@.len() == b@.len(),
            i <= a@.len(),
            forall|j: int| 0 <= j < i ==> a@[j] == b@[j],
        decreases a@.len() - i,
    {
        if a[i] != b[i] {
            return false;
        }
        i += 1;
    }
    assert(a@ =~= b@);
    true
}

impl PrinterCapabilitiesView {
    /// What [`PrinterCapabilities::validate`] finds.
    pub open spec fn validation(self) -> core::result::Result<(), PrintErrorView> {
        if self.media_sizes.len() == 0 {
            Err(PrintErrorView::Invalid("printer must advertise at least one media size"@))
        } else if self.max_copies == 0 {
            Err(PrintErrorView::Invalid("printer max copies must be positive"@))
        } else if self.accepted_document_types.len() == 0 {
            Err(PrintErrorView::Invalid("printer must accept at least one document type"@))
        } else {
            Ok(())
        }
    }
}

impl PrinterCapabilities {
    /// Checks that there is something to print on, that copies can be made
    /// and that some kind of document is accepted.
    pub fn validate(&self) -> (r: PrintResult<()>)
        ensures
            outcome(r) == self@.validation(),
    {
        if self.media_sizes.len() == 0 {
            return Err(
                PrintError::Invalid("printer must advertise at least one media size".to_string()),
            );
        }
        if self.max_copies == 0 {
            return Err(PrintError::Invalid("printer max copies must be positive".to_string()));
        }
        if self.accepted_document_types.len() == 0 {
            return Err(
                PrintError::Invalid("printer must accept at least one document type".to_string()),
            );
        }
        Ok(())
    }

    /// Whether both printers offer the same, in the same order.
    pub fn same(&self, other: &Self) -> (r: bool)
        ensures
            r == (self@ == other@),
    {
        same_media(&self.media_sizes, &other.media_sizes) && same_colors(
            &self.color_modes,
            &other.color_modes,
        ) && same_duplex(&self.duplex_modes, &other.duplex_modes) && same_resolutions(
            &self.resolutions,
            &other.resolutions,
        ) && self.max_copies == other.max_copies && self.supports_page_ranges
            == other.supports_page_ranges && self.supports_collation == other.supports_collation
            && same_texts(&self.accepted_document_types, &other.accepted_document_types)
    }
}

} // verus!
