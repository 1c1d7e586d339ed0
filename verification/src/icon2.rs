//! Icons converted into the user's icon folder: where a game's icon goes,
//! which images are looked for, which icon of an `.ico` file is taken, and
//! the order in which an icon is resolved from what the user gave.
use vstd::prelude::*;
use crate::paths::{join, parent, path_join, path_parent};
use crate::text::{ends_with, ends_with_spec, replace, replace_spec};
use image::imageops::FilterType;

verus! {

broadcast use vstd::string::group_string_axioms;

/// The images looked for next to a file, in order.
pub open spec fn image_names() -> Seq<Seq<char>> {
    seq!["icon.png"@, "icon.jpg"@, "icon.jpeg"@, "logo.png"@]
}

/// Where the icon of game `game` goes under `home`.
pub open spec fn gen_outpath_spec(home: Seq<char>, game: Seq<char>) -> Seq<char> {
    path_join(path_join(home, ".local/share/icons/hicolor/128x128/apps"@), game + "_cat_game.png"@)
}

/// The area of an icon entry.
pub open spec fn area(e: (u32, u32)) -> int {
    e.0 * e.1
}

/// `i` is the last entry of `sizes` with the largest area.
pub open spec fn is_last_largest(sizes: Seq<(u32, u32)>, i: int) -> bool {
    &&& 0 <= i < sizes.len()
    &&& forall|j: int| 0 <= j < sizes.len() ==> area(#[trigger] sizes[j]) <= area(sizes[i])
    &&& forall|j: int| i < j < sizes.len() ==> area(#[trigger] sizes[j]) < area(sizes[i])
}

/// The area of an icon entry, computed without overflow.
fn area_of(e: (u32, u32)) -> (a: u64)
    ensures
        a == area(e),
{
    let w: u64 = e.0 as u64;
    let h: u64 = e.1 as u64;
    assert(w * h <= 0xffff_ffffu64 * 0xffff_ffffu64) by (nonlinear_arith)
        requires
            w <= 0xffff_ffffu64,
            h <= 0xffff_ffffu64,
    ;
    w * h
}

/// The side, in pixels, of the square an icon is fitted into.
pub const ICON_SIZE: u32 = 128;

/// The filters an image is resized with.
#[derive(Clone, Copy)]
pub enum Resampling {
    Nearest,
    Triangle,
    CatmullRom,
    Gaussian,
    Lanczos3,
}

/// What reading `bytes` as an `.ico` file gives: the width and height of
/// each of its entries, in order; `None` where `bytes` is no `.ico` file.
pub uninterp spec fn ico_sizes(bytes: Seq<u8>) -> Option<Seq<(u32, u32)>>;

/// What decoding entry `i` of the `.ico` file `bytes` gives: its width,
/// height and RGBA pixels; `None` where it cannot be decoded.
pub uninterp spec fn ico_entry_rgba(bytes: Seq<u8>, i: nat) -> Option<(u32, u32, Seq<u8>)>;

/// What fitting the `width` by `height` RGBA pixels `rgba` into a `size`
/// square with `filter` and encoding the result as PNG gives.
pub uninterp spec fn rgba_png(width: u32, height: u32, rgba: Seq<u8>, size: u32, filter: Resampling) -> Option<Seq<u8>>;

/// What decoding `bytes` as an image of the format that the extension of
/// `path` names, fitting it into a `size` square with `filter` and
/// encoding the result as PNG gives.
pub uninterp spec fn image_png(bytes: Seq<u8>, path: Seq<char>, size: u32, filter: Resampling) -> Option<Seq<u8>>;

/// `ico::IconDir::read` on `bytes`, and the width and height of each of
/// its entries (`IconDirEntry::width`, `IconDirEntry::height`). Claimed:
/// `None` exactly where `ico_sizes` names none, else the sizes it names.
#[verifier::external_body]
fn read_ico_sizes(bytes: &Vec<u8>) -> (r: Option<Vec<(u32, u32)>>)
    ensures
        r is None <==> ico_sizes(bytes@) is None,
        r matches Some(v) ==> ico_sizes(bytes@) == Some(v@),
{
    match ico::IconDir::read(std::io::Cursor::new(bytes.as_slice())) {
        Ok(dir) => Some(dir.entries().iter().map(|e| (e.width(), e.height())).collect()),
        Err(_) => None,
    }
}

/// An entry size that decoding handles in its 32-bit arithmetic: a row
/// of at most 32 bits per pixel, and four bytes per pixel of the whole
/// image, each fit in a `u32`.
pub open spec fn decodable_size(e: (u32, u32)) -> bool {
    e.0 < 0x800_0000 && area(e) < 0x4000_0000
}

/// `ico::IconDir::read` on `bytes`, then `IconDirEntry::decode` of entry
/// `i`, which must be there, into its width, height and RGBA pixels
/// (`IconImage::width`, `height`, `rgba_data`). The entry's size must be
/// decodable: the BMP decoder computes the row size and the start of each
/// row in `u32` unchecked, and overflows there on larger ones. Claimed:
/// `None` exactly where `ico_entry_rgba` names none, else what it names.
#[verifier::external_body]
fn decode_ico_entry(bytes: &Vec<u8>, i: usize) -> (r: Option<(u32, u32, Vec<u8>)>)
    requires
        ico_sizes(bytes@) matches Some(s) && i < s.len() && decodable_size(s[i as int]),
    ensures
        r is None <==> ico_entry_rgba(bytes@, i as nat) is None,
        r matches Some((w, h, d)) ==> ico_entry_rgba(bytes@, i as nat) == Some((w, h, d@)),
{
    let dir = ico::IconDir::read(std::io::Cursor::new(bytes.as_slice())).ok()?;
    let image = dir.entries()[i].decode().ok()?;
    Some((image.width(), image.height(), image.rgba_data().to_vec()))
}

/// `image::ImageBuffer::from_raw` on the pixels, `DynamicImage::resize` to
/// fit a `size` square with `filter`, and `DynamicImage::write_to` as PNG.
/// Claimed: `None` exactly where `rgba_png` names none, else what it names.
#[verifier::external_body]
fn encode_png(width: u32, height: u32, rgba: &Vec<u8>, size: u32, filter: Resampling) -> (r: Option<Vec<u8>>)
    ensures
        r is None <==> rgba_png(width, height, rgba@, size, filter) is None,
        r matches Some(p) ==> rgba_png(width, height, rgba@, size, filter) == Some(p@),
{
    let f = match filter {
        Resampling::Nearest => FilterType::Nearest,
        Resampling::Triangle => FilterType::Triangle,
        Resampling::CatmullRom => FilterType::CatmullRom,
        Resampling::Gaussian => FilterType::Gaussian,
        Resampling::Lanczos3 => FilterType::Lanczos3,
    };
    let buffer = image::RgbaImage::from_raw(width, height, rgba.clone())?;
    let mut out = std::io::Cursor::new(Vec::new());
    image::DynamicImage::ImageRgba8(buffer).resize(size, size, f).write_to(&mut out, image::ImageFormat::Png).ok()?;
    Some(out.into_inner())
}

/// `image::ImageFormat::from_path` on `path`, `image::load_from_memory_with_format`
/// on `bytes`, `DynamicImage::resize` to fit a `size` square with `filter`,
/// and `DynamicImage::write_to` as PNG. Claimed: `None` exactly where
/// `image_png` names none, else what it names. Nothing is required of
/// `bytes`: the source read here does not settle whether the png, jpeg
/// and ico decoders return an error on every malformed input.
#[verifier::external_body]
fn resize_to_png(bytes: &Vec<u8>, path: &str, size: u32, filter: Resampling) -> (r: Option<Vec<u8>>)
    ensures
        r is None <==> image_png(bytes@, path@, size, filter) is None,
        r matches Some(p) ==> image_png(bytes@, path@, size, filter) == Some(p@),
{
    let f = match filter {
        Resampling::Nearest => FilterType::Nearest,
        Resampling::Triangle => FilterType::Triangle,
        Resampling::CatmullRom => FilterType::CatmullRom,
        Resampling::Gaussian => FilterType::Gaussian,
        Resampling::Lanczos3 => FilterType::Lanczos3,
    };
    let format = image::ImageFormat::from_path(path).ok()?;
    let mut out = std::io::Cursor::new(Vec::new());
    image::load_from_memory_with_format(bytes, format).ok()?.resize(size, size, f).write_to(&mut out, image::ImageFormat::Png).ok()?;
    Some(out.into_inner())
}

/// The entry taken out of an icon whose entries have sizes `sizes`: the
/// last of the largest area.
pub open spec fn largest_of(sizes: Seq<(u32, u32)>) -> int {
    choose|i: int| is_last_largest(sizes, i)
}

/// Only one entry is the last of the largest area.
pub proof fn lemma_last_largest_unique(sizes: Seq<(u32, u32)>, i: int, j: int)
    requires
        is_last_largest(sizes, i),
        is_last_largest(sizes, j),
    ensures
        i == j,
{
    if i < j {
        assert(area(sizes[j]) < area(sizes[i]));
        assert(area(sizes[i]) <= area(sizes[j]));
    } else if j < i {
        assert(area(sizes[i]) < area(sizes[j]));
        assert(area(sizes[j]) <= area(sizes[i]));
    }
}

/// The icon file and PNG bytes that converting the `.ico` file `bytes`
/// gives for game `game` under `home`: its last largest entry, fitted into
/// an `ICON_SIZE` square with Lanczos filtering; `None` where the file
/// cannot be read, has no entry, the entry's size is not decodable, or the
/// entry cannot be decoded or encoded.
pub open spec fn ico_to_png_spec(bytes: Seq<u8>, home: Seq<char>, game: Seq<char>) -> Option<(Seq<char>, Seq<u8>)> {
    match ico_sizes(bytes) {
        None => None,
        Some(sizes) => if sizes.len() == 0 {
            None
        } else if !decodable_size(sizes[largest_of(sizes)]) {
            None
        } else {
            match ico_entry_rgba(bytes, largest_of(sizes) as nat) {
                None => None,
                Some((w, h, rgba)) => match rgba_png(w, h, rgba, ICON_SIZE, Resampling::Lanczos3) {
                    None => None,
                    Some(png) => Some((gen_outpath_spec(home, game), png)),
                },
            }
        },
    }
}

/// The icon file and PNG bytes that resizing the image `bytes`, read from
/// `path`, gives for game `game` under `home`.
pub open spec fn image_resize_spec(bytes: Seq<u8>, path: Seq<char>, home: Seq<char>, game: Seq<char>) -> Option<(Seq<char>, Seq<u8>)> {
    match image_png(bytes, path, ICON_SIZE, Resampling::Lanczos3) {
        None => None,
        Some(png) => Some((gen_outpath_spec(home, game), png)),
    }
}

/// What to do next while looking for an icon next to a file.
pub enum LocateStep {
    /// Resize from the folder, the image at position `at` being there; on
    /// failure ask again from `at + 1`.
    TryFolder { at: usize },
    /// Convert the `.ico` file.
    ConvertIco,
    /// No icon is there.
    Nothing,
}

/// Which icon files to look for next to a file, and the `.ico` file tried
/// after them.
pub struct LocatePlan {
    pub folder: String,
    pub images: Vec<String>,
    pub ico: String,
}

/// How an icon is taken out of a Windows program: the program to run, its
/// arguments, the folder it runs in, the `.ico` it writes, the name the
/// icon is kept under and the file it is converted to.
pub struct ExeJob {
    pub program: String,
    pub args: Vec<String>,
    pub folder: String,
    pub ico: String,
    pub game: String,
    pub out: String,
}

/// The next thing to do while resolving an icon.
pub enum ResolveStep {
    /// Look for the icon next to the input; hand the result to
    /// [`IconProcesor::resolve_after_locate`].
    Locate,
    /// Take the icon out of the program; hand the result to
    /// [`IconProcesor::resolve_after_exe`].
    ExtractExe,
    /// Convert the `.ico` input to `out`, then give `out`.
    IcoToPng { out: String },
    /// Resize the image input, then give the input.
    Resize,
    /// Give this icon.
    Return(String),
}

/// What a [`ResolveStep`] holds.
pub enum ResolveView {
    Locate,
    ExtractExe,
    IcoToPng { out: Seq<char> },
    Resize,
    Return(Seq<char>),
}

impl View for ResolveStep {
    type V = ResolveView;

    open spec fn view(&self) -> ResolveView {
        match self {
            ResolveStep::Locate => ResolveView::Locate,
            ResolveStep::ExtractExe => ResolveView::ExtractExe,
            ResolveStep::IcoToPng { out } => ResolveView::IcoToPng { out: out@ },
            ResolveStep::Resize => ResolveView::Resize,
            ResolveStep::Return(s) => ResolveView::Return(s@),
        }
    }
}

/// What is left to do for input `input` once neither the folder nor the
/// program gave an icon: convert an `.ico`, resize an image, or give the
/// input as it is.
pub open spec fn resolve_tail_spec(home: Seq<char>, input: Seq<char>, name: Seq<char>) -> ResolveView {
    if ends_with_spec(input, "ico"@) {
        ResolveView::IcoToPng { out: gen_outpath_spec(home, name) }
    } else if ends_with_spec(input, "png"@) || ends_with_spec(input, "jpg"@) || ends_with_spec(
        input,
        "jpeg"@,
    ) {
        ResolveView::Resize
    } else {
        ResolveView::Return(input)
    }
}

/// What is left to do once the folder gave `found`.
pub open spec fn after_locate_spec(
    home: Seq<char>,
    input: Seq<char>,
    name: Seq<char>,
    found: Seq<char>,
) -> ResolveView {
    if found.len() != 0 {
        ResolveView::Return(found)
    } else if ends_with_spec(input, ".exe"@) {
        ResolveView::ExtractExe
    } else {
        resolve_tail_spec(home, input, name)
    }
}

/// Which icon extractors the system has.
pub struct IconProcesor {
    wrestool: bool,
    icoextract: bool,
}

impl View for IconProcesor {
    type V = (bool, bool);

    closed spec fn view(&self) -> (bool, bool) {
        (self.wrestool, self.icoextract)
    }
}

impl IconProcesor {
    /// Extractors as found: `wrestool` and `icoextract` there or not.
    pub fn new(wrestool: bool, icoextract: bool) -> (p: IconProcesor)
        ensures
            p@ == (wrestool, icoextract),
    {
        IconProcesor { wrestool, icoextract }
    }

    /// Where the icon of game `game` goes under `home`.
    pub fn gen_outpath(home: &str, game: &str) -> (p: String)
        ensures
            p@ == gen_outpath_spec(home@, game@),
    {
        let apps = join(home, ".local/share/icons/hicolor/128x128/apps");
        let mut file = String::from_str(game);
        file.append("_cat_game.png");
        join(apps.as_str(), file.as_str())
    }

    /// The images looked for next to `file`, and the `.ico` tried after
    /// them: `None` where `file` has no folder.
    pub fn locate_icon(file: &str) -> (r: Option<LocatePlan>)
        ensures
            r is None <==> path_parent(file@) is None,
            r matches Some(p) ==> {
                let folder = path_parent(file@).unwrap();
                &&& p.folder@ == folder
                &&& p.images.deep_view() == image_names().map_values(|n: Seq<char>| path_join(folder, n))
                &&& p.ico@ == path_join(folder, "icon.ico"@)
            },
    {
        match parent(file) {
            None => None,
            Some(folder) => {
                let mut images: Vec<String> = Vec::new();
                images.push(join(folder.as_str(), "icon.png"));
                images.push(join(folder.as_str(), "icon.jpg"));
                images.push(join(folder.as_str(), "icon.jpeg"));
                images.push(join(folder.as_str(), "logo.png"));
                let ico = join(folder.as_str(), "icon.ico");
                assert(images.deep_view() =~= image_names().map_values(
                    |n: Seq<char>| path_join(path_parent(file@).unwrap(), n),
                ));
                Some(LocatePlan { folder, images, ico })
            },
        }
    }

    /// The icon file of game `game` under `home` and the PNG bytes to write
    /// there, converted from the `.ico` file `bytes`.
    pub fn ico_to_png(bytes: &Vec<u8>, home: &str, game: &str) -> (r: Option<(String, Vec<u8>)>)
        ensures
            match r {
                None => ico_to_png_spec(bytes@, home@, game@) is None,
                Some((out, png)) => ico_to_png_spec(bytes@, home@, game@) == Some((out@, png@)),
            },
    {
        let sizes = match read_ico_sizes(bytes) {
            None => return None,
            Some(s) => s,
        };
        let i = match IconProcesor::largest_entry(&sizes) {
            None => return None,
            Some(i) => i,
        };
        proof {
            lemma_last_largest_unique(sizes@, i as int, largest_of(sizes@));
        }
        let (width, _) = sizes[i];
        if width >= 0x800_0000 || area_of(sizes[i]) >= 0x4000_0000 {
            return None;
        }
        let (w, h, rgba) = match decode_ico_entry(bytes, i) {
            None => return None,
            Some(e) => e,
        };
        match encode_png(w, h, &rgba, ICON_SIZE, Resampling::Lanczos3) {
            None => None,
            Some(png) => Some((IconProcesor::gen_outpath(home, game), png)),
        }
    }

    /// The icon file of game `game` under `home` and the PNG bytes to write
    /// there, resized from the image `bytes` read from `path`.
    pub fn image_resize(bytes: &Vec<u8>, path: &str, home: &str, game: &str) -> (r: Option<(String, Vec<u8>)>)
        ensures
            match r {
                None => image_resize_spec(bytes@, path@, home@, game@) is None,
                Some((out, png)) => image_resize_spec(bytes@, path@, home@, game@) == Some((out@, png@)),
            },
    {
        match resize_to_png(bytes, path, ICON_SIZE, Resampling::Lanczos3) {
            None => None,
            Some(png) => Some((IconProcesor::gen_outpath(home, game), png)),
        }
    }

    /// What to do next while looking for an icon next to a file, by the
    /// answers `exists` to whether each of its images is there, from
    /// position `from` on, and `ico_exists` to whether its `.ico` file is.
    pub fn locate_step(exists: &Vec<bool>, from: usize, ico_exists: bool) -> (r: LocateStep)
        ensures
            r matches LocateStep::TryFolder { at } ==> from <= at < exists@.len() && exists@[at as int]
                && forall|j: int| from <= j < at ==> !#[trigger] exists@[j],
            !(r is TryFolder) ==> forall|j: int| from <= j < exists@.len() ==> !#[trigger] exists@[j],
            r is ConvertIco ==> ico_exists,
            r is Nothing ==> !ico_exists,
    {
        match crate::icon::IconProcesor::first_existing(exists, from) {
            Some(at) => LocateStep::TryFolder { at },
            None => if ico_exists {
                LocateStep::ConvertIco
            } else {
                LocateStep::Nothing
            },
        }
    }

    /// The position of the icon entry to take out of an `.ico` file: the
    /// last of the largest area; `None` where there is none.
    pub fn largest_entry(sizes: &Vec<(u32, u32)>) -> (r: Option<usize>)
        ensures
            r is None <==> sizes@.len() == 0,
            r matches Some(i) ==> is_last_largest(sizes@, i as int),
    {
        if sizes.len() == 0 {
            return None;
        }
        let mut best: usize = 0;
        let mut best_area: u64 = area_of(sizes[0]);
        let mut i: usize = 1;
        while i < sizes.len()
            invariant
                1 <= i <= sizes@.len(),
                best < i,
                best_area == area(sizes@[best as int]),
                forall|j: int| 0 <= j < i ==> area(#[trigger] sizes@[j]) <= best_area,
                forall|j: int| best < j < i ==> area(#[trigger] sizes@[j]) < best_area,
            decreases sizes@.len() - i,
        {
            let a: u64 = area_of(sizes[i]);
            if a >= best_area {
                best = i;
                best_area = a;
            }
            i = i + 1;
        }
        Some(best)
    }

    /// How the icon of program `file`, run from folder `path`, is taken out
    /// and kept for game `game` under `home`: `None` where neither
    /// `wrestool` nor `icoextract` is there.
    pub fn icon_exe(&self, path: &str, file: &str, game: &str, home: &str) -> (r: Option<ExeJob>)
        ensures
            r is None <==> !self@.0 && !self@.1,
            r matches Some(job) ==> {
                let ico = path_join(path@, "icon.ico"@);
                let base = replace_spec(game@, ".exe"@, Seq::empty());
                &&& job.folder@ == path@
                &&& job.ico@ == ico
                &&& job.game@ == base
                &&& job.out@ == gen_outpath_spec(home@, base)
                &&& self@.1 ==> job.program@ == "icoextract"@ && job.args.deep_view() == seq![file@, ico]
                &&& !self@.1 ==> job.program@ == "wrestool"@ && job.args.deep_view() == seq![
                    "-x"@,
                    "-t"@,
                    "14"@,
                    file@,
                    "-o"@,
                    ico,
                ]
            },
    {
        if !(self.wrestool || self.icoextract) {
            return None;
        }
        let ico = join(path, "icon.ico");
        let mut args: Vec<String> = Vec::new();
        let program;
        if self.icoextract {
            program = String::from_str("icoextract");
            args.push(String::from_str(file));
            args.push(ico.clone());
            assert(args.deep_view() =~= seq![file@, ico@]);
        } else {
            program = String::from_str("wrestool");
            args.push(String::from_str("-x"));
            args.push(String::from_str("-t"));
            args.push(String::from_str("14"));
            args.push(String::from_str(file));
            args.push(String::from_str("-o"));
            args.push(ico.clone());
            assert(args.deep_view() =~= seq!["-x"@, "-t"@, "14"@, file@, "-o"@, ico@]);
        }
        proof {
            reveal_strlit("");
            assert(""@ =~= Seq::<char>::empty());
        }
        let base = replace(game, ".exe", "");
        let out = IconProcesor::gen_outpath(home, base.as_str());
        Some(ExeJob { program, args, folder: String::from_str(path), ico, game: base, out })
    }

    /// The first thing to do to resolve an icon from `input` for game
    /// `name`: look next to it when it is not empty.
    pub fn resolve_icon(input: &str, name: &str, home: &str) -> (r: ResolveStep)
        ensures
            input@.len() != 0 ==> r@ == ResolveView::Locate,
            input@.len() == 0 ==> r@ == after_locate_spec(home@, input@, name@, Seq::empty()),
    {
        proof {
            reveal_strlit("");
        }
        if input.unicode_len() != 0 {
            ResolveStep::Locate
        } else {
            IconProcesor::resolve_after_locate(input, name, home, "")
        }
    }

    /// What is left once looking next to `input` gave `found`.
    pub fn resolve_after_locate(input: &str, name: &str, home: &str, found: &str) -> (r: ResolveStep)
        ensures
            r@ == after_locate_spec(home@, input@, name@, found@),
    {
        if found.unicode_len() != 0 {
            ResolveStep::Return(String::from_str(found))
        } else if ends_with(input, ".exe") {
            ResolveStep::ExtractExe
        } else {
            IconProcesor::resolve_tail(input, name, home)
        }
    }

    /// What is left once the program `input` gave `out`.
    pub fn resolve_after_exe(input: &str, name: &str, home: &str, out: &str) -> (r: ResolveStep)
        ensures
            out@.len() != 0 ==> r@ == ResolveView::Return(out@),
            out@.len() == 0 ==> r@ == resolve_tail_spec(home@, input@, name@),
    {
        if out.unicode_len() != 0 {
            ResolveStep::Return(String::from_str(out))
        } else {
            IconProcesor::resolve_tail(input, name, home)
        }
    }

    fn resolve_tail(input: &str, name: &str, home: &str) -> (r: ResolveStep)
        ensures
            r@ == resolve_tail_spec(home@, input@, name@),
    {
        if ends_with(input, "ico") {
            ResolveStep::IcoToPng { out: IconProcesor::gen_outpath(home, name) }
        } else if ends_with(input, "png") || ends_with(input, "jpg") || ends_with(input, "jpeg") {
            ResolveStep::Resize
        } else {
            ResolveStep::Return(String::from_str(input))
        }
    }
}

} // verus!
