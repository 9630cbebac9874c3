//! `/upload-emoji`: which attachments and names are taken.

use vstd::prelude::*;
use vstd::string::StringSliceAdditionalSpecFns;

use crate::cli::sync_wiki::sections::bytes;
use crate::cli::upload_emoji::{safe_name, upload_name, SAFE_NAME_MAX};
use crate::db::loot::markup;
use crate::picture::{is_png, looks_like_png, pictures_are_told_by_four_bytes};
use crate::text::{cat3, cat5, dec, dec_u32, dec_u64, dec_usize, own, Text};

verus! {

/// The largest attachment that is taken, in bytes.
pub const ATTACHMENT_MAX: u32 = 262_144;

/// Coerce a logical name into a name that Discord takes, as the command-line tool
/// does.
pub fn discord_safe_name(s: &str) -> (r: String)
    ensures
        r@ == safe_name(s@),
{
    crate::cli::upload_emoji::discord_safe_name(s)
}

/// What a user who may not upload is told.
pub const NOT_AUTHORIZED: &'static str = "Not authorized.";

/// Why an attachment is not uploaded.
#[derive(Debug)]
pub enum AttachmentError {
    /// It is larger than Discord takes.
    TooLarge(u32),
    /// It does not begin like a PNG file.
    NotPng,
    /// The name on Discord is empty.
    NameEmpty,
    /// The name on Discord is too long.
    NameTooLong(String),
}

/// Whether an attachment is small enough to be downloaded.
pub fn size_fits(size: u32) -> (r: bool)
    ensures
        r == (size <= ATTACHMENT_MAX),
{
    size <= ATTACHMENT_MAX
}

/// Check an attachment and a name before they are sent to Discord: the name to
/// upload the attachment under. `size` is the size that Discord gives.
pub fn check_attachment(size: u32, file: &[u8], name: &str, discord_name: Option<String>) -> (r: Result<
    String,
    AttachmentError,
>)
    ensures
        match r {
            Ok(n) => size <= ATTACHMENT_MAX && looks_like_png(file@) && n@ == upload_name(
                name@,
                discord_name,
            ) && 0 < n@.len() && bytes(n@).len() <= SAFE_NAME_MAX,
            Err(AttachmentError::TooLarge(s)) => s == size && size > ATTACHMENT_MAX,
            Err(AttachmentError::NotPng) => size <= ATTACHMENT_MAX && !looks_like_png(file@),
            Err(AttachmentError::NameEmpty) => size <= ATTACHMENT_MAX && looks_like_png(file@)
                && upload_name(name@, discord_name).len() == 0,
            Err(AttachmentError::NameTooLong(n)) => size <= ATTACHMENT_MAX && looks_like_png(file@)
                && n@ == upload_name(name@, discord_name) && 0 < n@.len() && bytes(n@).len()
                > SAFE_NAME_MAX,
        },
{
    if !size_fits(size) {
        return Err(AttachmentError::TooLarge(size));
    }
    if !is_png(file) {
        return Err(AttachmentError::NotPng);
    }
    let n = match discord_name {
        Some(d) => d,
        None => discord_safe_name(name),
    };
    if n.as_str().is_empty() {
        return Err(AttachmentError::NameEmpty);
    }
    if n.as_str().as_bytes().len() > SAFE_NAME_MAX {
        return Err(AttachmentError::NameTooLong(n));
    }
    Ok(n)
}

/// What the operator is told of an attachment that is too large.
pub open spec fn too_large_text(size: u32) -> Seq<char> {
    "⚠ Attachment is "@ + dec((size / 1024) as int) + "KB — Discord's app-emoji limit is 256KB."@
}

/// What the operator is told of an attachment that is not a PNG file.
pub const NOT_PNG: &'static str = "⚠ Attachment isn't a PNG (magic bytes don't match).";

/// What the operator is told where no name is left.
pub const NAME_EMPTY: &'static str = "⚠ Derived Discord-side name is empty after sanitising.";

/// What the operator is told of a name that is too long.
pub open spec fn too_long_text(n: Seq<char>) -> Seq<char> {
    "⚠ Discord-side name `"@ + n + "` is "@ + dec(bytes(n).len() as int) + TOO_LONG_HINT@
}

/// What the operator is told of an attachment that is not uploaded.
pub fn reply_err(e: &AttachmentError) -> (r: String)
    ensures
        r@ == (match *e {
            AttachmentError::TooLarge(size) => too_large_text(size),
            AttachmentError::NotPng => NOT_PNG@,
            AttachmentError::NameEmpty => NAME_EMPTY@,
            AttachmentError::NameTooLong(n) => too_long_text(n@),
        }),
{
    match e {
        AttachmentError::TooLarge(size) => cat3(
            "⚠ Attachment is ",
            &dec_u32(*size / 1024),
            "KB — Discord's app-emoji limit is 256KB.",
        ),
        AttachmentError::NotPng => own(NOT_PNG),
        AttachmentError::NameEmpty => own(NAME_EMPTY),
        AttachmentError::NameTooLong(n) => cat5(
            "⚠ Discord-side name `",
            n,
            "` is ",
            &dec_usize(n.as_str().as_bytes().len()),
            TOO_LONG_HINT,
        ),
    }
}

/// What to do about a request for an upload.
#[derive(Debug)]
pub enum UploadStep {
    /// Say this, and do nothing.
    Refuse(String),
    /// Download the attachment.
    Download,
    /// Upload it under this name.
    Upload(String),
}

/// What to do about a request for an upload, over views.
pub ghost enum UploadStepView {
    Refuse(Seq<char>),
    Download,
    Upload(Seq<char>),
}

impl View for UploadStep {
    type V = UploadStepView;

    open spec fn view(&self) -> UploadStepView {
        match self {
            UploadStep::Refuse(t) => UploadStepView::Refuse(t@),
            UploadStep::Download => UploadStepView::Download,
            UploadStep::Upload(n) => UploadStepView::Upload(n@),
        }
    }
}

/// What to do about a request for an upload: only the operator may ask, a large
/// attachment is not downloaded, and what was downloaded must be a PNG file under a
/// name that Discord takes.
pub open spec fn upload_request(
    operator: bool,
    size: u32,
    file: Option<Seq<u8>>,
    name: Seq<char>,
) -> UploadStepView {
    if !operator {
        UploadStepView::Refuse(NOT_AUTHORIZED@)
    } else if size > ATTACHMENT_MAX {
        UploadStepView::Refuse(too_large_text(size))
    } else {
        match file {
            None => UploadStepView::Download,
            Some(f) => if !looks_like_png(f) {
                UploadStepView::Refuse(NOT_PNG@)
            } else if name.len() == 0 {
                UploadStepView::Refuse(NAME_EMPTY@)
            } else if bytes(name).len() > SAFE_NAME_MAX {
                UploadStepView::Refuse(too_long_text(name))
            } else {
                UploadStepView::Upload(name)
            },
        }
    }
}

/// What to do next about a request for an upload. `file` is the attachment once it is
/// downloaded.
pub fn upload_request_step(
    operator: bool,
    size: u32,
    file: Option<&Vec<u8>>,
    name: &str,
    discord_name: Option<String>,
) -> (r: UploadStep)
    ensures
        r@ == upload_request(
            operator,
            size,
            match file {
                Some(f) => Some(f@),
                None => None,
            },
            upload_name(name@, discord_name),
        ),
{
    if !operator {
        return UploadStep::Refuse(own(NOT_AUTHORIZED));
    }
    if !size_fits(size) {
        return UploadStep::Refuse(reply_err(&AttachmentError::TooLarge(size)));
    }
    match file {
        None => UploadStep::Download,
        Some(f) => match check_attachment(size, f.as_slice(), name, discord_name) {
            Ok(n) => UploadStep::Upload(n),
            Err(e) => UploadStep::Refuse(reply_err(&e)),
        },
    }
}

/// Nothing is downloaded or uploaded unless the operator asks, and nothing is uploaded
/// but a PNG file that is not too large, under a name that Discord takes.
pub proof fn only_the_operator_uploads(
    operator: bool,
    size: u32,
    file: Option<Seq<u8>>,
    name: Seq<char>,
)
    ensures
        !(upload_request(operator, size, file, name) is Refuse) ==> operator && size <= ATTACHMENT_MAX,
        upload_request(operator, size, file, name) is Upload ==> file is Some && looks_like_png(
            file->0,
        ) && 0 < name.len() && bytes(name).len() <= SAFE_NAME_MAX,
{
}

/// What can be done about a name that is too long.
pub const TOO_LONG_HINT: &'static str = " chars; the limit is 32. \
    Pass a shorter value with the `discord_name` parameter.";

/// What the operator is told of an upload.
pub fn upload_reply(name: &str, name_on_discord: &str, emoji_id: u64, animated: bool) -> (r: String)
    ensures
        r@ == "✔ Uploaded `"@ + name@ + "` as "@ + markup(
            name_on_discord@,
            emoji_id as int,
            animated,
        ) + " (Discord name: `"@ + name_on_discord@ + "`, id: `"@ + dec(emoji_id as int) + "`)."@,
{
    let rendered = if animated {
        cat5("<a:", name_on_discord, ":", &dec_u64(emoji_id), ">")
    } else {
        cat5("<:", name_on_discord, ":", &dec_u64(emoji_id), ">")
    };
    Text::new("✔ Uploaded `").add(name).add("` as ").add(&rendered).add(" (Discord name: `").add(
        name_on_discord,
    ).add("`, id: `").add(&dec_u64(emoji_id)).add("`).").done()
}

/// A picture is uploaded exactly when an operator asks, it is no larger than 256 kilobytes,
/// it was downloaded and is a PNG, and its name has between one and thirty-two bytes. It is
/// downloaded when only that is missing; else the first thing that is wrong is told.
pub proof fn pictures_are_uploaded_when_all_holds(
    operator: bool,
    size: u32,
    file: Option<Seq<u8>>,
    name: Seq<char>,
)
    ensures
        ({
            let step = upload_request(operator, size, file, name);
            let small = size <= 256 * 1024;
            let png = file is Some && file->0.len() >= 4 && file->0[0] == 0x89 && file->0[1] == 0x50
                && file->0[2] == 0x4E && file->0[3] == 0x47;
            &&& step is Upload <==> operator && small && png && name.len() > 0 && bytes(name).len()
                <= 32
            &&& step is Upload ==> step->Upload_0 == name
            &&& step is Download <==> operator && small && file is None
            &&& !operator ==> step == UploadStepView::Refuse("Not authorized."@)
            &&& operator && !small ==> step == UploadStepView::Refuse(
                "⚠ Attachment is "@ + dec((size / 1024) as int)
                    + "KB — Discord's app-emoji limit is 256KB."@,
            )
            &&& operator && small && file is Some && !png ==> step == UploadStepView::Refuse(
                NOT_PNG@,
            )
            &&& operator && small && png && name.len() == 0 ==> step == UploadStepView::Refuse(
                NAME_EMPTY@,
            )
            &&& operator && small && png && name.len() > 0 && bytes(name).len() > 32 ==> step
                == UploadStepView::Refuse(
                "⚠ Discord-side name `"@ + name + "` is "@ + dec(bytes(name).len() as int)
                    + TOO_LONG_HINT@,
            )
        }),
{
    if file is Some {
        pictures_are_told_by_four_bytes(file->0);
    }
}

} // verus!
