//! The image gallery: its records, the listing statement, and the pure
//! part of image handling — format sniffing, the orientation read from
//! EXIF data, and the transform plan that corrects it.  Decoding and
//! resizing themselves are done by the image toolkit outside this crate,
//! following the plan computed here.

use vstd::prelude::*;

use std::io::Cursor;

use crate::error::AppError;
use crate::query::BindValue;
use crate::text::{dec_i64, dec_u64, spec_dec, spec_dec_int};

verus! {

/// Default page width of the gallery widget: a compact five-row strip,
/// usually shown without a pager.
pub const DEFAULT_PAGE_SIZE: u8 = 5;

/// Which subset of the gallery a listing shows.
pub enum ListBy {
    All,
    UserId(i32),
}

/// A stored image record.
pub struct Image {
    pub id: i32,
    pub user_id: i32,
    pub title: String,
    pub brief: Option<String>,
    pub tags: Option<String>,
    pub file: Option<String>,
    pub src: Option<String>,
    pub created_at: i64,
    pub updated_at: Option<i64>,
}

impl Image {
    /// The stored record as form input, for the edit page.
    pub fn input(self) -> (r: Input)
        ensures
            r.title == Some(self.title),
            r.brief == self.brief,
            r.tags == self.tags,
            r.file == self.file,
            r.data is None,
            r.resize is None,
    {
        Input {
            title: Some(self.title),
            brief: self.brief,
            tags: self.tags,
            file: self.file,
            data: None,
            resize: None,
        }
    }
}

/// What an image form submits.
pub struct Input {
    pub title: Option<String>,
    pub brief: Option<String>,
    pub tags: Option<String>,
    pub file: Option<String>,
    pub data: Option<Vec<u8>>,
    pub resize: Option<u32>,
}

/// The listing projection of an image row.
pub struct ImageSimple {
    pub id: i32,
    pub title: String,
    pub file: Option<String>,
    pub created_at: i64,
}

/// Row shape of the gallery's count query.
pub struct DbTotal {
    pub total: i64,
}

/// The WHERE clause of a gallery listing: empty, or the owner
/// restriction with the owner id as its bound value.
pub open spec fn spec_img_where(f: ListBy) -> Seq<char> {
    match f {
        ListBy::All => Seq::<char>::empty(),
        ListBy::UserId(_) => "where user_id=$1"@,
    }
}

/// The two statements of a gallery listing: the count query and the
/// page query, with the owner id bound when the listing is owner-scoped.
pub fn list_queries(filter: &ListBy, page: u32, size: u8) -> (r: (
    (String, Vec<BindValue>),
    (String, Vec<BindValue>),
))
    requires
        page >= 1,
        size >= 1,
    ensures
        r.0.0@ == "select count(*) as total from image "@ + spec_img_where(*filter) + ";"@,
        r.1.0@ == "select id, title, file, created_at from image "@ + spec_img_where(*filter)
            + " order by id desc limit "@ + spec_dec(size as int) + " offset "@ + spec_dec(
            (size as int) * (page as int - 1),
        ) + ";"@,
        filter is All ==> r.0.1@.len() == 0 && r.1.1@.len() == 0,
        filter matches ListBy::UserId(u) ==> r.0.1@.len() == 1 && r.0.1@[0] == BindValue::Int(
            u as i64,
        ) && r.1.1@.len() == 1 && r.1.1@[0] == BindValue::Int(u as i64),
{
    proof {
        assert((size as int) * (page as int - 1) <= 255 * 0xFFFF_FFFFint) by (nonlinear_arith)
            requires
                size <= 255,
                1 <= page <= 0xFFFF_FFFFu32,
        ;
    }
    let offset: u64 = (size as u64) * (page as u64 - 1);
    let mut w = String::new();
    let mut binds: Vec<BindValue> = Vec::new();
    match filter {
        ListBy::All => {},
        ListBy::UserId(u) => {
            w.append("where user_id=$1");
            binds.push(BindValue::Int(*u as i64));
        },
    }
    let mut count = String::new();
    count.append("select count(*) as total from image ");
    count.append(w.as_str());
    count.append(";");
    let mut slice = String::new();
    slice.append("select id, title, file, created_at from image ");
    slice.append(w.as_str());
    slice.append(" order by id desc limit ");
    let lim = dec_u64(size as u64);
    slice.append(lim.as_str());
    slice.append(" offset ");
    let off = dec_u64(offset);
    slice.append(off.as_str());
    slice.append(";");
    let cbinds = match filter {
        ListBy::All => Vec::new(),
        ListBy::UserId(u) => {
            let mut v: Vec<BindValue> = Vec::new();
            v.push(BindValue::Int(*u as i64));
            v
        },
    };
    ((count, cbinds), (slice, binds))
}

/// One primitive transform of the image toolkit.
#[derive(Clone, Copy, Debug, PartialEq, Eq)]
pub enum ImgOp {
    FlipH,
    FlipV,
    Rotate90,
    Rotate180,
    Rotate270,
}

/// The transforms, in order, that correct an EXIF orientation code; an
/// unknown code means no correction.
pub open spec fn spec_rotate_plan(orientation: u32) -> Seq<ImgOp> {
    if orientation == 2 {
        seq![ImgOp::FlipV]
    } else if orientation == 3 {
        seq![ImgOp::Rotate180]
    } else if orientation == 4 {
        seq![ImgOp::FlipH]
    } else if orientation == 5 {
        seq![ImgOp::FlipV, ImgOp::Rotate270]
    } else if orientation == 6 {
        seq![ImgOp::Rotate90]
    } else if orientation == 7 {
        seq![ImgOp::FlipV, ImgOp::Rotate90]
    } else if orientation == 8 {
        seq![ImgOp::Rotate270]
    } else {
        Seq::<ImgOp>::empty()
    }
}

/// The transforms that undo an EXIF orientation, in application order.
pub fn img_rotate(orientation: u32) -> (r: Vec<ImgOp>)
    ensures
        r@ == spec_rotate_plan(orientation),
{
    let mut ops: Vec<ImgOp> = Vec::new();
    if orientation == 2 {
        ops.push(ImgOp::FlipV);
    } else if orientation == 3 {
        ops.push(ImgOp::Rotate180);
    } else if orientation == 4 {
        ops.push(ImgOp::FlipH);
    } else if orientation == 5 {
        ops.push(ImgOp::FlipV);
        ops.push(ImgOp::Rotate270);
    } else if orientation == 6 {
        ops.push(ImgOp::Rotate90);
    } else if orientation == 7 {
        ops.push(ImgOp::FlipV);
        ops.push(ImgOp::Rotate90);
    } else if orientation == 8 {
        ops.push(ImgOp::Rotate270);
    }
    proof {
        assert(ops@ =~= spec_rotate_plan(orientation));
    }
    ops
}

/// The orientation tag stored in a byte stream's EXIF data, if any: a
/// fixed function of the bytes alone.
pub uninterp spec fn orientation_of(bytes: Seq<u8>) -> Option<u32>;

/// Relies on kamadak-exif: `Reader::read_from_container` over the bytes,
/// `get_field(Tag::Orientation, In::PRIMARY)` and `Value::get_uint(0)`
/// read the primary orientation tag, a fixed function of the bytes; no
/// EXIF data, no such tag, or a non-integer value yields `None`.
#[verifier::external_body]
fn exif_orientation(img_bytes: &Vec<u8>) -> (r: Option<u32>)
    ensures
        r == orientation_of(img_bytes@),
{
    let mut buf = Cursor::new(img_bytes);
    match exif::Reader::new().read_from_container(&mut buf) {
        Ok(data) => match data.get_field(exif::Tag::Orientation, exif::In::PRIMARY) {
            Some(field) => field.value.get_uint(0),
            None => None,
        },
        Err(_) => None,
    }
}

/// The EXIF orientation of an uploaded image, defaulted to the neutral
/// code 1 when absent or out of the defined range 1–8.
pub fn get_orientation(img_bytes: &Vec<u8>) -> (r: u32)
    ensures
        r == (match orientation_of(img_bytes@) {
            Some(v) => if 1 <= v <= 8 {
                v
            } else {
                1u32
            },
            None => 1u32,
        }),
        1 <= r <= 8,
{
    match exif_orientation(img_bytes) {
        Some(v) => if 1 <= v && v <= 8 {
            v
        } else {
            1
        },
        None => 1,
    }
}

/// The accepted upload formats.
#[derive(Clone, Copy, Debug)]
pub enum ImgFormat {
    Png,
    Jpeg,
    Gif,
}

/// The PNG signature.
pub open spec fn is_png(b: Seq<u8>) -> bool {
    b.len() >= 8 && b[0] == 0x89u8 && b[1] == 0x50u8 && b[2] == 0x4Eu8 && b[3] == 0x47u8 && b[4]
        == 0x0Du8 && b[5] == 0x0Au8 && b[6] == 0x1Au8 && b[7] == 0x0Au8
}

/// The JPEG start-of-image marker.
pub open spec fn is_jpeg(b: Seq<u8>) -> bool {
    b.len() >= 3 && b[0] == 0xFFu8 && b[1] == 0xD8u8 && b[2] == 0xFFu8
}

/// The full six-byte GIF signature, `GIF87a` or `GIF89a`.
pub open spec fn is_gif(b: Seq<u8>) -> bool {
    b.len() >= 6 && b[0] == 0x47u8 && b[1] == 0x49u8 && b[2] == 0x46u8 && b[3] == 0x38u8 && (b[4]
        == 0x37u8 || b[4] == 0x39u8) && b[5] == 0x61u8
}

/// Sniffs an upload's format from its leading magic bytes, exactly as
/// the accepted formats define them, together with the file extension to
/// store it under.  Anything else is refused.
pub fn get_format_and_ext(img_bytes: &[u8]) -> (r: Result<(ImgFormat, &'static str), AppError>)
    ensures
        is_png(img_bytes@) ==> (r matches Ok(p) && p.0 is Png && p.1@ == "png"@),
        !is_png(img_bytes@) && is_jpeg(img_bytes@) ==> (r matches Ok(p) && p.0 is Jpeg && p.1@
            == "jpg"@),
        !is_png(img_bytes@) && !is_jpeg(img_bytes@) && is_gif(img_bytes@) ==> (r matches Ok(p)
            && p.0 is Gif && p.1@ == "gif"@),
        !is_png(img_bytes@) && !is_jpeg(img_bytes@) && !is_gif(img_bytes@) ==> r matches Err(
            AppError::InvalidFileFormat,
        ),
{
    let n = img_bytes.len();
    if n >= 8 && img_bytes[0] == 0x89 && img_bytes[1] == 0x50 && img_bytes[2] == 0x4E
        && img_bytes[3] == 0x47 && img_bytes[4] == 0x0D && img_bytes[5] == 0x0A && img_bytes[6]
        == 0x1A && img_bytes[7] == 0x0A {
        Ok((ImgFormat::Png, "png"))
    } else if n >= 3 && img_bytes[0] == 0xFF && img_bytes[1] == 0xD8 && img_bytes[2] == 0xFF {
        Ok((ImgFormat::Jpeg, "jpg"))
    } else if n >= 6 && img_bytes[0] == 0x47 && img_bytes[1] == 0x49 && img_bytes[2] == 0x46
        && img_bytes[3] == 0x38 && (img_bytes[4] == 0x37 || img_bytes[4] == 0x39)
        && img_bytes[5] == 0x61 {
        Ok((ImgFormat::Gif, "gif"))
    } else {
        Err(AppError::InvalidFileFormat)
    }
}

/// The stored file name of an upload and of its thumbnail: the owner,
/// the upload instant, and the extension.
pub fn create_file_name(ext: &str, user_id: i32, stamp: &str) -> (r: (String, String))
    ensures
        r.0@ == spec_dec_int(user_id as int) + "-"@ + stamp@ + "."@ + ext@,
        r.1@ == "s-"@ + spec_dec_int(user_id as int) + "-"@ + stamp@ + "."@ + ext@,
{
    let ids = dec_i64(user_id as i64);
    let mut a = String::new();
    a.append(ids.as_str());
    a.append("-");
    a.append(stamp);
    a.append(".");
    a.append(ext);
    let mut b = String::new();
    b.append("s-");
    b.append(ids.as_str());
    b.append("-");
    b.append(stamp);
    b.append(".");
    b.append(ext);
    (a, b)
}


/// The statement that fetches one full image record by id.
pub fn get_one_sql(id: i32) -> (r: (String, Vec<BindValue>))
    ensures
        r.0@
            == "select id, user_id, title, brief, tags, file, src, created_at, updated_at from image where id=$1"@,
        r.1@ == seq![BindValue::Int(id as i64)],
{
    let mut s = String::new();
    s.append(
        "select id, user_id, title, brief, tags, file, src, created_at, updated_at from image where id=$1",
    );
    let mut binds: Vec<BindValue> = Vec::new();
    binds.push(BindValue::Int(id as i64));
    proof {
        assert(binds@ =~= seq![BindValue::Int(id as i64)]);
    }
    (s, binds)
}

} // verus!
