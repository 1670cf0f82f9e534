//! The pictures of one picture folder.
use vstd::prelude::*;
use crate::config::{DIR_ANNUAL, DIR_PHOTO_WALL, DIR_STATIC, DIR_TEMP};
use crate::get_fsmap::{static_link, static_link_of, under_static};
use crate::reply::{Data, Reply, Rejection, Response};
use crate::text::{forward_slashes, join2, replace_backslashes};

verus! {

/// Raised when listing a picture folder fails.
#[derive(Debug)]
pub struct FailedToReadImageFilesInFolder(pub String);

/// A picture: its public link, its title (file name without extension) and
/// its path with `/` separators.
#[derive(Clone, Debug)]
pub struct ImageFile {
    pub image: String,
    pub title: String,
    pub file_path: String,
}

/// The picture folder a category names: the photo wall, the annual
/// pictures, or the temporary folder for anything else.
pub open spec fn folder_for(category: Seq<char>) -> Seq<char> {
    if category == "photo_wall"@ {
        DIR_PHOTO_WALL@
    } else if category == "annual"@ {
        DIR_ANNUAL@
    } else {
        DIR_TEMP@
    }
}

pub fn image_folder(category: &String) -> (r: &'static str)
    ensures
        r@ == folder_for(category@),
{
    if *category == String::from_str("photo_wall") {
        DIR_PHOTO_WALL
    } else if *category == String::from_str("annual") {
        DIR_ANNUAL
    } else {
        DIR_TEMP
    }
}

/// Where the walk through a picture folder starts: the folder inside the
/// static directory.
pub fn folder_root(folder: &str) -> (r: String)
    ensures
        r@ == DIR_STATIC@ + folder@,
{
    join2(DIR_STATIC, folder)
}

/// The file extensions of pictures.
pub open spec fn picture_extension(ext: Seq<char>) -> bool {
    ||| ext == "jpg"@
    ||| ext == "jpeg"@
    ||| ext == "png"@
    ||| ext == "gif"@
    ||| ext == "bmp"@
    ||| ext == "webp"@
}

pub fn is_picture_extension(ext: &String) -> (r: bool)
    ensures
        r == picture_extension(ext@),
{
    *ext == String::from_str("jpg") || *ext == String::from_str("jpeg") || *ext == String::from_str("png")
        || *ext == String::from_str("gif") || *ext == String::from_str("bmp") || *ext == String::from_str("webp")
}

/// A walked entry is a picture: a file with a picture extension and a stem.
pub open spec fn is_picture(is_file: bool, extension: Option<Seq<char>>, stem: Option<Seq<char>>) -> bool {
    is_file && stem is Some && match extension {
        Some(e) => picture_extension(e),
        None => false,
    }
}

pub open spec fn view_text(t: Option<String>) -> Option<Seq<char>> {
    match t {
        Some(s) => Some(s@),
        None => None,
    }
}

/// What the listing shows of a walked entry: for a picture, its link, its
/// stem as title and its path with `/` separators; nothing otherwise.
pub fn picture_entry(path: &str, is_file: bool, extension: Option<String>, stem: Option<String>) -> (r: Option<ImageFile>)
    requires
        is_picture(is_file, view_text(extension), view_text(stem)) ==> under_static(forward_slashes(path@)),
    ensures
        is_picture(is_file, view_text(extension), view_text(stem)) ==> (r matches Some(img) && img.image@
            == static_link(forward_slashes(path@)) && img.title@ == view_text(stem).unwrap()
            && img.file_path@ == forward_slashes(path@)),
        !is_picture(is_file, view_text(extension), view_text(stem)) ==> r is None,
{
    if !is_file {
        return None;
    }
    let picture = match &extension {
        Some(e) => is_picture_extension(e),
        None => false,
    };
    if !picture {
        return None;
    }
    match stem {
        None => None,
        Some(title) => {
            let file_path = replace_backslashes(path);
            let image = static_link_of(file_path.as_str());
            Some(ImageFile { image, title, file_path })
        },
    }
}

/// The answer carrying the pictures of a folder.
pub fn images_reply(images: Vec<ImageFile>) -> (r: Response)
    ensures
        r == Ok::<Reply, Rejection>(Reply::Success(Data::Images(images))),
{
    Ok(Reply::Success(Data::Images(images)))
}

} // verus!
