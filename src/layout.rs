use vstd::prelude::*;

use crate::text::{contains_str, lex_sorted, occurs_in, replace_char, replace_chars, sort_lex};

verus! {

/// The directory under which container roots and the image cache live.
pub const FILE_SYSTEM_ROOT: &'static str = "/var/container_rs";

pub open spec fn root_spec() -> Seq<char> {
    "/var/container_rs"@
}

pub open spec fn images_spec() -> Seq<char> {
    root_spec() + "/images"@
}

/// An image name made safe for one path component: separators become underscores.
pub open spec fn sanitized(image: Seq<char>) -> Seq<char> {
    replace_char(image, '/', '_')
}

pub open spec fn image_dir_spec(image: Seq<char>) -> Seq<char> {
    images_spec() + "/"@ + sanitized(image)
}

pub open spec fn container_dir_spec(id: Seq<char>) -> Seq<char> {
    root_spec() + "/"@ + id
}

/// A reference names an archive when it holds `.tar`.
pub open spec fn is_archive_ref(image: Seq<char>) -> bool {
    occurs_in(".tar"@, image)
}

/// Whether the entry path holds a `..` component.
pub open spec fn has_parent_component(p: Seq<char>) -> bool {
    exists|i: int|
        0 <= i && i + 2 <= p.len() && #[trigger] p[i] == '.' && p[i + 1] == '.' && (i == 0 || p[i
            - 1] == '/') && (i + 2 == p.len() || p[i + 2] == '/')
}

/// Where an image reference is read from.
pub enum ImageSource {
    /// A gzip-compressed tar archive at this path.
    Archive(String),
    /// The cache directory of a pulled image.
    Cached(String),
}

#[derive(PartialEq, Eq, Structural, Clone, Copy, Debug)]
pub enum ImageError {
    /// The image is neither an archive nor in the cache.
    ImageNotFound,
    /// An archive entry would land outside the target directory.
    PathEscapes,
}

impl ImageError {
    pub fn message(&self) -> (r: String) {
        match self {
            ImageError::ImageNotFound => String::from_str("Image could not be found"),
            ImageError::PathEscapes => String::from_str("Archive entry escapes the target directory"),
        }
    }
}

/// The root filesystem of one container: the directory its image is extracted into.
pub struct FileSystem {
    pub container_id: String,
    pub path: String,
}

impl FileSystem {
    /// The root filesystem of the container `container_id`.
    pub fn new(container_id: String) -> (r: FileSystem)
        ensures
            r.container_id@ == container_id@,
            r.path@ == container_dir_spec(container_id@),
    {
        let path = get_container_path(container_id.as_str());
        FileSystem { container_id, path }
    }
}

pub fn get_file_system_root_path() -> (r: String)
    ensures
        r@ == root_spec(),
{
    String::from_str(FILE_SYSTEM_ROOT)
}

pub fn get_images_path() -> (r: String)
    ensures
        r@ == images_spec(),
{
    get_file_system_root_path().concat("/images")
}

/// The cache directory of `image`.
pub fn get_image_path(image: &str) -> (r: String)
    ensures
        r@ == image_dir_spec(image@),
{
    let name = replace_chars(image, '/', '_');
    get_images_path().concat("/").concat(name.as_str())
}

/// The directory that the container `id` has its image extracted into.
pub fn get_container_path(id: &str) -> (r: String)
    ensures
        r@ == container_dir_spec(id@),
{
    get_file_system_root_path().concat("/").concat(id)
}

/// Decides where the image of a reference comes from.
pub fn resolve_image(image: &str) -> (r: ImageSource)
    ensures
        is_archive_ref(image@) ==> (r matches ImageSource::Archive(p) && p@ == image@),
        !is_archive_ref(image@) ==> (r matches ImageSource::Cached(d) && d@ == image_dir_spec(
            image@,
        )),
{
    proof {
        reveal_strlit(".tar");
    }
    if contains_str(image, ".tar") {
        ImageSource::Archive(String::from_str(image))
    } else {
        ImageSource::Cached(get_image_path(image))
    }
}

/// The order in which the layer files of a cached image are extracted: by file name.
/// `listing` is `None` where the cache directory does not exist.
pub fn layer_order(listing: Option<Vec<String>>) -> (r: Result<Vec<String>, ImageError>)
    ensures
        listing is None <==> r matches Err(ImageError::ImageNotFound),
        listing matches Some(names) ==> (r matches Ok(v) && lex_sorted(v@) && v@.to_multiset()
            == names@.to_multiset()),
{
    match listing {
        None => Err(ImageError::ImageNotFound),
        Some(names) => Ok(sort_lex(names)),
    }
}

/// Whether the archive entry path holds a `..` component.
pub fn parent_component(p: &str) -> (r: bool)
    ensures
        r == has_parent_component(p@),
{
    let len = p.unicode_len();
    let mut i: usize = 0;
    while len >= 2 && i <= len - 2
        invariant
            len == p@.len(),
            i <= len,
            forall|k: int|
                0 <= k < i ==> !(#[trigger] p@[k] == '.' && k + 2 <= p@.len() && p@[k + 1] == '.'
                    && (k == 0 || p@[k - 1] == '/') && (k + 2 == p@.len() || p@[k + 2] == '/')),
        decreases len - i,
    {
        if p.get_char(i) == '.' && p.get_char(i + 1) == '.' && (i == 0 || p.get_char(i - 1)
            == '/') && (i + 2 == len || p.get_char(i + 2) == '/') {
            return true;
        }
        i += 1;
    }
    false
}

/// Where an archive entry lands under `root`; an entry with a `..` component is refused.
pub fn entry_target(root: &str, entry: &str) -> (r: Result<String, ImageError>)
    ensures
        has_parent_component(entry@) <==> r matches Err(ImageError::PathEscapes),
        !has_parent_component(entry@) ==> (r matches Ok(t) && t@ == root@ + "/"@ + entry@),
{
    if parent_component(entry) {
        Err(ImageError::PathEscapes)
    } else {
        Ok(String::from_str(root).concat("/").concat(entry))
    }
}

/// An archive entry that is accepted lands inside the target directory, at its own
/// relative path.
pub proof fn lemma_entries_stay_inside(root: Seq<char>, entry: Seq<char>, target: Seq<char>)
    requires
        !has_parent_component(entry),
        target == root + "/"@ + entry,
    ensures
        target.subrange(0, root.len() as int + 1) == root + "/"@,
        target.subrange(root.len() as int + 1, target.len() as int) == entry,
{
    reveal_strlit("/");
    assert(target.subrange(0, root.len() as int + 1) =~= root + "/"@);
    assert(target.subrange(root.len() as int + 1, target.len() as int) =~= entry);
}

/// The tree after extracting the layers in order: the files of each layer replace
/// those of the layers before it.
pub open spec fn overlay(layers: Seq<Map<Seq<char>, Seq<u8>>>) -> Map<Seq<char>, Seq<u8>>
    decreases layers.len(),
{
    if layers.len() == 0 {
        Map::empty()
    } else {
        overlay(layers.drop_last()).union_prefer_right(layers.last())
    }
}

/// A file ends with the content of the last layer that holds it.
pub proof fn lemma_later_layer_wins(layers: Seq<Map<Seq<char>, Seq<u8>>>, j: int, path: Seq<char>)
    requires
        0 <= j < layers.len(),
        layers[j].contains_key(path),
        forall|k: int| j < k < layers.len() ==> !(#[trigger] layers[k]).contains_key(path),
    ensures
        overlay(layers).contains_key(path),
        overlay(layers)[path] == layers[j][path],
    decreases layers.len(),
{
    if j < layers.len() - 1 {
        let init = layers.drop_last();
        assert forall|k: int| j < k < init.len() implies !(#[trigger] init[k]).contains_key(path) by {
            assert(init[k] == layers[k]);
        }
        lemma_later_layer_wins(init, j, path);
        assert(!layers[layers.len() - 1].contains_key(path));
    }
}

} // verus!
