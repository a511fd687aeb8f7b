use vstd::prelude::*;

use crate::layout::{get_image_path, image_dir_spec};
use crate::registry::{auth_url_spec, docker_registry_spec, DockerRegistry};
use crate::text::{
    decimal, lemma_decimal_bound, lemma_lex_append, lemma_lex_irreflexive,
    lemma_padded_len, lemma_padded_order, lex_lt, lex_sorted, padded, push_decimal, push_padded,
    push_str_chars, str_eq, string_of_chars,
};

verus! {

/// The media type of a version 2 image manifest.
pub const MANIFEST_MEDIA_TYPE: &'static str = "application/vnd.docker.distribution.manifest.v2+json";

/// The name of a downloaded blob whose URL gives none.
pub const FALLBACK_STEM: &'static str = "tmp.bin";

#[derive(PartialEq, Eq, Structural, Clone, Copy, Debug)]
pub enum DockerRegistryError {
    /// No image name was set before the pull.
    ImageNameNotGiven,
    /// The token request failed or gave no token.
    AuthFailed,
    /// The manifest could not be fetched or read.
    ManifestFailed,
    /// At least one layer download failed.
    LayerDownloadFailed,
    /// The layers could not be written into the image cache.
    CommitFailed,
    /// An event came that the current stage does not wait for.
    UnexpectedEvent,
    /// No registry of that name is known.
    UnsupportedRegistry,
}

impl DockerRegistryError {
    pub fn message(&self) -> (r: String) {
        match self {
            DockerRegistryError::ImageNameNotGiven => String::from_str("Image name is not given"),
            DockerRegistryError::AuthFailed => String::from_str("Failed to get the auth token"),
            DockerRegistryError::ManifestFailed => String::from_str("Failed to get the image manifest"),
            DockerRegistryError::LayerDownloadFailed => String::from_str("Failed to download an image layer"),
            DockerRegistryError::CommitFailed => String::from_str("Failed to copy the layers into the image cache"),
            DockerRegistryError::UnexpectedEvent => String::from_str("Unexpected event during the pull"),
            DockerRegistryError::UnsupportedRegistry => String::from_str("Unsupported registry"),
        }
    }
}

/// A blob that a manifest refers to.
pub struct Descriptor {
    pub media_type: String,
    pub size: u64,
    pub digest: String,
}

/// What a registry reports of an image: its config and its layers, base layer first.
pub struct Manifest {
    pub schema_version: u32,
    pub media_type: String,
    pub config: Descriptor,
    pub layers: Vec<Descriptor>,
}

/// The digests of the layers, in manifest order.
pub open spec fn layer_digests(m: Manifest) -> Seq<Seq<char>> {
    m.layers@.map_values(|d: Descriptor| d.digest@)
}

pub open spec fn manifest_url_spec(registry: Seq<char>, image: Seq<char>) -> Seq<char> {
    registry + "/"@ + image + "/manifests/latest"@
}

pub open spec fn blob_url_spec(registry: Seq<char>, image: Seq<char>, digest: Seq<char>) -> Seq<char> {
    registry + "/"@ + image + "/blobs/"@ + digest
}

/// The index of the last `/` before `end`, or -1.
pub open spec fn last_slash_before(q: Seq<char>, end: int) -> int
    decreases end,
{
    if end <= 0 {
        -1
    } else if q[end - 1] == '/' {
        end - 1
    } else {
        last_slash_before(q, end - 1)
    }
}

/// The path of a URL without its leading `/`: its segments joined by `/`.
pub open spec fn segments_text(path: Seq<char>) -> Seq<char> {
    if path.len() > 0 && path[0] == '/' {
        path.drop_first()
    } else {
        path
    }
}

/// The last but one segment of a URL path, where there is one and it is not empty;
/// registries address a blob there.
pub open spec fn blob_stem(path: Seq<char>) -> Seq<char> {
    let q = segments_text(path);
    let last = last_slash_before(q, q.len() as int);
    let prev = last_slash_before(q, last);
    if last < 0 || last == prev + 1 {
        "tmp.bin"@
    } else {
        q.subrange(prev + 1, last)
    }
}

/// The width of the layer numbers of an image with `count` layers.
pub open spec fn index_width(count: nat) -> nat {
    decimal(count).len()
}

/// The file name of layer `index` of `count`, downloaded from a URL with this path.
/// The zero-padded number first makes file-name order the manifest order.
pub open spec fn layer_file_spec(index: nat, count: nat, path: Seq<char>) -> Seq<char> {
    padded(index, index_width(count)) + "-"@ + blob_stem(path) + ".tar.gz"@
}

/// Every download succeeded, one per layer.
pub open spec fn all_downloaded(results: Seq<Option<String>>, count: nat) -> bool {
    results.len() == count && forall|i: int| 0 <= i < results.len() ==> #[trigger] results[i] is Some
}

#[derive(PartialEq, Eq, Structural, Clone, Copy, Debug)]
pub enum PullStage {
    Auth,
    Manifest,
    Download,
    Commit,
    Done,
    Failed,
}

/// A pull of one image, driven by the caller: each event gives the next action.
pub struct PullSession {
    pub registry_url: String,
    pub image: String,
    pub token: Option<String>,
    pub digests: Vec<String>,
    pub stage: PullStage,
}

/// One blob to fetch.
pub struct BlobRequest {
    pub url: String,
    pub token: String,
}

/// What the caller reports back.
pub enum PullEvent {
    /// The token, or `None` where the request or its body failed.
    Token(Option<String>),
    /// The manifest, or `None` where it could not be fetched or read.
    Manifest(Option<Manifest>),
    /// For each blob request, in request order, the path of the URL that the body came
    /// from, or `None` where that download failed.
    Blobs(Vec<Option<String>>),
    /// Whether the layers were copied into the cache.
    Committed(bool),
}

/// What the caller does next.
pub enum PullAction {
    /// GET the token at this URL.
    FetchToken { url: String },
    /// GET the manifest at this URL, with the bearer token and this `Accept` header.
    FetchManifest { url: String, token: String, accept: String },
    /// GET these blobs, all at once.
    FetchBlobs { requests: Vec<BlobRequest> },
    /// Save each downloaded blob, in request order, under the file name of the same
    /// index, then copy all of them into the directory.
    Commit { dir: String, files: Vec<String> },
    /// The image is in the cache.
    Finished,
    /// The pull failed; the cache was not written.
    Fail(DockerRegistryError),
}

impl PullSession {
    pub open spec fn wf(&self) -> bool {
        (self.stage == PullStage::Manifest || self.stage == PullStage::Download) ==> self.token is Some
    }

    pub open spec fn token_view(&self) -> Seq<char> {
        self.token->Some_0@
    }
}

/// A pull may go on: a non-empty token was handed back.
pub open spec fn token_ok(t: Option<String>) -> bool {
    t matches Some(s) && s@.len() > 0
}

/// The last-but-one path segment, or the fallback name.
pub fn blob_file_stem(path: &str) -> (r: String)
    ensures
        r@ == blob_stem(path@),
{
    let len = path.unicode_len();
    let start: usize = if len > 0 && path.get_char(0) == '/' {
        1
    } else {
        0
    };
    let ghost q = segments_text(path@);
    proof {
        assert(q =~= path@.subrange(start as int, len as int));
    }
    // Index in `q` just past the last `/` seen, scanning from the end.
    let mut end: usize = len - start;
    while end > 0 && path.get_char(start + end - 1) != '/'
        invariant
            len == path@.len(),
            q == path@.subrange(start as int, len as int),
            start <= len,
            end <= len - start,
            last_slash_before(q, q.len() as int) == last_slash_before(q, end as int),
        decreases end,
    {
        assert(q[end - 1] == path@[start + end - 1]);
        end -= 1;
    }
    if end == 0 {
        proof {
            reveal_strlit("tmp.bin");
        }
        return String::from_str(FALLBACK_STEM);
    }
    let last: usize = end - 1;
    let mut e2: usize = last;
    while e2 > 0 && path.get_char(start + e2 - 1) != '/'
        invariant
            len == path@.len(),
            q == path@.subrange(start as int, len as int),
            start <= len,
            last < len - start,
            e2 <= last,
            last_slash_before(q, last as int) == last_slash_before(q, e2 as int),
        decreases e2,
    {
        assert(q[e2 - 1] == path@[start + e2 - 1]);
        e2 -= 1;
    }
    // The segment runs from `e2` up to `last`.
    if e2 == last {
        proof {
            reveal_strlit("tmp.bin");
        }
        String::from_str(FALLBACK_STEM)
    } else {
        String::from_str(path.substring_char(start + e2, start + last))
    }
}

/// The file name of layer `index` of `count`, from the path of the URL it came from.
pub fn layer_file_name(index: usize, count: usize, path: &str) -> (r: String)
    requires
        index < count,
    ensures
        r@ == layer_file_spec(index as nat, count as nat, path@),
{
    let mut digits: Vec<char> = Vec::new();
    push_decimal(count as u64, &mut digits);
    let width = digits.len();
    let mut v: Vec<char> = Vec::new();
    push_padded(index as u64, width as u64, &mut v);
    v.push('-');
    let stem = blob_file_stem(path);
    push_str_chars(stem.as_str(), &mut v);
    push_str_chars(".tar.gz", &mut v);
    proof {
        reveal_strlit("-");
        assert(v@ =~= layer_file_spec(index as nat, count as nat, path@));
    }
    string_of_chars(&v)
}

/// Two layers of one image never share a file name, and the earlier comes first in
/// file-name order.
pub proof fn lemma_layer_names_ordered(i: nat, j: nat, count: nat, p: Seq<char>, q: Seq<char>)
    requires
        i < j < count,
    ensures
        lex_lt(layer_file_spec(i, count, p), layer_file_spec(j, count, q)),
        layer_file_spec(i, count, p) != layer_file_spec(j, count, q),
{
    let w = index_width(count);
    lemma_decimal_bound(count);
    lemma_padded_order(i, j, w);
    lemma_padded_len(i, w);
    lemma_padded_len(j, w);
    let s = "-"@ + blob_stem(p) + ".tar.gz"@;
    let t = "-"@ + blob_stem(q) + ".tar.gz"@;
    lemma_lex_append(padded(i, w), padded(j, w), s, t);
    assert(layer_file_spec(i, count, p) =~= padded(i, w) + s);
    assert(layer_file_spec(j, count, q) =~= padded(j, w) + t);
    lemma_lex_irreflexive(layer_file_spec(i, count, p));
}

/// Extracting the cached layers in file-name order applies them in manifest order: of
/// two layers, the one later in the manifest stands later in any sorted listing.
pub proof fn lemma_cache_order_is_manifest_order(
    sorted: Seq<String>,
    a: int,
    b: int,
    i: nat,
    j: nat,
    count: nat,
    p: Seq<char>,
    q: Seq<char>,
)
    requires
        lex_sorted(sorted),
        0 <= a < sorted.len(),
        0 <= b < sorted.len(),
        i < j < count,
        sorted[a]@ == layer_file_spec(i, count, p),
        sorted[b]@ == layer_file_spec(j, count, q),
    ensures
        a < b,
{
    lemma_layer_names_ordered(i, j, count, p, q);
    if b < a {
        assert(!lex_lt(sorted[a]@, sorted[b]@));
    }
}

/// Whether the stage waits for this kind of event.
pub open spec fn expects(stage: PullStage, event: PullEvent) -> bool {
    match event {
        PullEvent::Token(_) => stage == PullStage::Auth,
        PullEvent::Manifest(_) => stage == PullStage::Manifest,
        PullEvent::Blobs(_) => stage == PullStage::Download,
        PullEvent::Committed(_) => stage == PullStage::Commit,
    }
}

/// The file names of the layers of one pull, one per download, in request order.
pub open spec fn commit_files_spec(results: Seq<Option<String>>) -> Seq<Seq<char>> {
    Seq::new(results.len(), |i: int| layer_file_spec(i as nat, results.len(), results[i]->Some_0@))
}

/// A pull writes one file per layer into the cache: the names of its layers are
/// pairwise different, whatever URLs the downloads came from.
pub proof fn lemma_one_file_per_layer(results: Seq<Option<String>>)
    ensures
        commit_files_spec(results).len() == results.len(),
        commit_files_spec(results).no_duplicates(),
{
    let f = commit_files_spec(results);
    assert forall|i: int, j: int| 0 <= i < f.len() && 0 <= j < f.len() && i != j implies f[i] != f[j] by {
        if i < j {
            lemma_layer_names_ordered(i as nat, j as nat, results.len(), results[i]->Some_0@, results[j]->Some_0@);
        } else {
            lemma_layer_names_ordered(j as nat, i as nat, results.len(), results[j]->Some_0@, results[i]->Some_0@);
        }
    }
}

impl PullSession {
    /// A session for `image` at `registry_url`. Without a token it first asks the token
    /// service at `auth_url`.
    pub fn start(registry_url: String, image: String, auth_url: String, token: Option<String>) -> (r: (PullSession, PullAction))
        ensures
            r.0.wf(),
            r.0.registry_url@ == registry_url@,
            r.0.image@ == image@,
            r.0.digests@.len() == 0,
            token is None ==> r.0.stage == PullStage::Auth && (r.1 matches PullAction::FetchToken { url } && url@ == auth_url@),
            token matches Some(t) ==> r.0.stage == PullStage::Manifest && r.0.token_view() == t@ && (r.1 matches PullAction::FetchManifest { url, token: tk, accept }
                && url@ == manifest_url_spec(registry_url@, image@) && tk@ == t@ && accept@ == MANIFEST_MEDIA_TYPE@),
    {
        match token {
            None => {
                let s = PullSession { registry_url, image, token: None, digests: Vec::new(), stage: PullStage::Auth };
                (s, PullAction::FetchToken { url: auth_url })
            },
            Some(t) => {
                let url = manifest_url(registry_url.as_str(), image.as_str());
                let tk = t.clone();
                let s = PullSession { registry_url, image, token: Some(t), digests: Vec::new(), stage: PullStage::Manifest };
                (s, PullAction::FetchManifest { url, token: tk, accept: String::from_str(MANIFEST_MEDIA_TYPE) })
            },
        }
    }

    fn fail(&mut self, e: DockerRegistryError) -> (a: PullAction)
        requires
            old(self).wf(),
        ensures
            final(self).wf(),
            final(self).stage == PullStage::Failed,
            final(self).registry_url == old(self).registry_url,
            final(self).image == old(self).image,
            a matches PullAction::Fail(x) && x == e,
    {
        self.stage = PullStage::Failed;
        PullAction::Fail(e)
    }

    /// Takes the outcome of the last action and gives the next one. A failed step fails
    /// the whole pull, and nothing is committed to the cache after a failure.
    pub fn step(&mut self, event: PullEvent) -> (a: PullAction)
        requires
            old(self).wf(),
        ensures
            final(self).wf(),
            final(self).registry_url == old(self).registry_url,
            final(self).image == old(self).image,
            !expects(old(self).stage, event) ==> final(self).stage == PullStage::Failed
                && (a matches PullAction::Fail(e) && e == DockerRegistryError::UnexpectedEvent),
            old(self).stage == PullStage::Failed ==> final(self).stage == PullStage::Failed && a is Fail,
            old(self).stage == PullStage::Auth ==> match event {
                PullEvent::Token(t) => if token_ok(t) {
                    final(self).stage == PullStage::Manifest && final(self).token_view() == t->Some_0@
                        && (a matches PullAction::FetchManifest { url, token, accept }
                        && url@ == manifest_url_spec(old(self).registry_url@, old(self).image@)
                        && token@ == t->Some_0@ && accept@ == MANIFEST_MEDIA_TYPE@)
                } else {
                    final(self).stage == PullStage::Failed && (a matches PullAction::Fail(e) && e == DockerRegistryError::AuthFailed)
                },
                _ => true,
            },
            old(self).stage == PullStage::Manifest ==> match event {
                PullEvent::Manifest(Some(m)) => final(self).stage == PullStage::Download
                    && final(self).token_view() == old(self).token_view()
                    && final(self).digests@.len() == m.layers@.len()
                    && (forall|i: int| 0 <= i < m.layers@.len() ==> #[trigger] final(self).digests@[i]@ == m.layers@[i].digest@)
                    && (a matches PullAction::FetchBlobs { requests } && requests@.len() == m.layers@.len()
                    && forall|i: int| 0 <= i < m.layers@.len() ==> (#[trigger] requests@[i]).url@ == blob_url_spec(
                        old(self).registry_url@, old(self).image@, m.layers@[i].digest@)
                        && requests@[i].token@ == old(self).token_view()),
                PullEvent::Manifest(None) => final(self).stage == PullStage::Failed
                    && (a matches PullAction::Fail(e) && e == DockerRegistryError::ManifestFailed),
                _ => true,
            },
            old(self).stage == PullStage::Download ==> match event {
                PullEvent::Blobs(results) => if all_downloaded(results@, old(self).digests@.len()) {
                    final(self).stage == PullStage::Commit && (a matches PullAction::Commit { dir, files }
                        && dir@ == image_dir_spec(old(self).image@) && files@.len() == results@.len()
                        && forall|i: int| 0 <= i < files@.len() ==> #[trigger] files@[i]@ == commit_files_spec(results@)[i])
                } else {
                    final(self).stage == PullStage::Failed
                        && (a matches PullAction::Fail(e) && e == DockerRegistryError::LayerDownloadFailed)
                },
                _ => true,
            },
            old(self).stage == PullStage::Commit ==> match event {
                PullEvent::Committed(ok) => if ok {
                    final(self).stage == PullStage::Done && a is Finished
                } else {
                    final(self).stage == PullStage::Failed
                        && (a matches PullAction::Fail(e) && e == DockerRegistryError::CommitFailed)
                },
                _ => true,
            },
            old(self).stage == PullStage::Done ==> final(self).stage == PullStage::Failed,
    {
        match event {
            PullEvent::Token(t) => {
                if self.stage != PullStage::Auth {
                    return self.fail(DockerRegistryError::UnexpectedEvent);
                }
                match t {
                    Some(tok) => {
                        if tok.unicode_len() == 0 {
                            return self.fail(DockerRegistryError::AuthFailed);
                        }
                        let url = manifest_url(self.registry_url.as_str(), self.image.as_str());
                        let tk = tok.clone();
                        self.token = Some(tok);
                        self.stage = PullStage::Manifest;
                        PullAction::FetchManifest { url, token: tk, accept: String::from_str(MANIFEST_MEDIA_TYPE) }
                    },
                    None => self.fail(DockerRegistryError::AuthFailed),
                }
            },
            PullEvent::Manifest(m) => {
                if self.stage != PullStage::Manifest {
                    return self.fail(DockerRegistryError::UnexpectedEvent);
                }
                match m {
                    Some(m) => {
                        let requests = self.blob_requests(&m);
                        let mut digests: Vec<String> = Vec::new();
                        let mut i: usize = 0;
                        while i < m.layers.len()
                            invariant
                                i <= m.layers@.len(),
                                digests@.len() == i,
                                forall|k: int| 0 <= k < i ==> #[trigger] digests@[k]@ == m.layers@[k].digest@,
                            decreases m.layers@.len() - i,
                        {
                            digests.push(m.layers[i].digest.clone());
                            i += 1;
                        }
                        self.digests = digests;
                        self.stage = PullStage::Download;
                        PullAction::FetchBlobs { requests }
                    },
                    None => self.fail(DockerRegistryError::ManifestFailed),
                }
            },
            PullEvent::Blobs(results) => {
                if self.stage != PullStage::Download {
                    return self.fail(DockerRegistryError::UnexpectedEvent);
                }
                match commit_files(&results, self.digests.len()) {
                    Some(files) => {
                        self.stage = PullStage::Commit;
                        PullAction::Commit { dir: get_image_path(self.image.as_str()), files }
                    },
                    None => self.fail(DockerRegistryError::LayerDownloadFailed),
                }
            },
            PullEvent::Committed(ok) => {
                if self.stage != PullStage::Commit {
                    return self.fail(DockerRegistryError::UnexpectedEvent);
                }
                if ok {
                    self.stage = PullStage::Done;
                    PullAction::Finished
                } else {
                    self.fail(DockerRegistryError::CommitFailed)
                }
            },
        }
    }

    /// One request per layer, in manifest order.
    fn blob_requests(&self, m: &Manifest) -> (r: Vec<BlobRequest>)
        requires
            self.token is Some,
        ensures
            r@.len() == m.layers@.len(),
            forall|i: int| 0 <= i < m.layers@.len() ==> (#[trigger] r@[i]).url@ == blob_url_spec(
                self.registry_url@, self.image@, m.layers@[i].digest@)
                && r@[i].token@ == self.token_view(),
    {
        let token = match &self.token {
            Some(t) => t,
            None => {
                assert(false);
                return Vec::new();
            },
        };
        let mut requests: Vec<BlobRequest> = Vec::new();
        let mut i: usize = 0;
        while i < m.layers.len()
            invariant
                i <= m.layers@.len(),
                requests@.len() == i,
                token@ == self.token_view(),
                forall|k: int| 0 <= k < i ==> (#[trigger] requests@[k]).url@ == blob_url_spec(
                    self.registry_url@, self.image@, m.layers@[k].digest@)
                    && requests@[k].token@ == self.token_view(),
            decreases m.layers@.len() - i,
        {
            let url = blob_url(self.registry_url.as_str(), self.image.as_str(), m.layers[i].digest.as_str());
            requests.push(BlobRequest { url, token: token.clone() });
            i += 1;
        }
        requests
    }
}

/// The file names for the downloads, where every one of the `count` succeeded.
fn commit_files(results: &Vec<Option<String>>, count: usize) -> (r: Option<Vec<String>>)
    ensures
        r is Some <==> all_downloaded(results@, count as nat),
        r matches Some(files) ==> files@.len() == results@.len() && forall|i: int| 0 <= i < files@.len() ==> #[trigger] files@[i]@ == commit_files_spec(results@)[i],
{
    if results.len() != count {
        return None;
    }
    let mut files: Vec<String> = Vec::new();
    let mut i: usize = 0;
    while i < results.len()
        invariant
            i <= results@.len(),
            files@.len() == i,
            forall|k: int| 0 <= k < i ==> #[trigger] results@[k] is Some,
            forall|k: int| 0 <= k < i ==> #[trigger] files@[k]@ == commit_files_spec(results@)[k],
        decreases results@.len() - i,
    {
        match &results[i] {
            Some(path) => {
                files.push(layer_file_name(i, results.len(), path.as_str()));
            },
            None => {
                return None;
            },
        }
        i += 1;
    }
    Some(files)
}

pub fn manifest_url(registry: &str, image: &str) -> (r: String)
    ensures
        r@ == manifest_url_spec(registry@, image@),
{
    String::from_str(registry).concat("/").concat(image).concat("/manifests/latest")
}

pub fn blob_url(registry: &str, image: &str, digest: &str) -> (r: String)
    ensures
        r@ == blob_url_spec(registry@, image@, digest@),
{
    String::from_str(registry).concat("/").concat(image).concat("/blobs/").concat(digest)
}

/// Starts a pull of `image` from the registry called `registry`; `docker` is the one
/// known.
pub fn pull(registry: &str, image: Option<String>) -> (r: Result<(PullSession, PullAction), DockerRegistryError>)
    ensures
        registry@ != "docker"@ ==> r == Err::<(PullSession, PullAction), DockerRegistryError>(
            DockerRegistryError::UnsupportedRegistry,
        ),
        registry@ == "docker"@ && image is None ==> r == Err::<(PullSession, PullAction), DockerRegistryError>(
            DockerRegistryError::ImageNameNotGiven,
        ),
        registry@ == "docker"@ && image is Some ==> (r matches Ok(p) && p.0.wf() && p.0.image@ == image->Some_0@
            && p.0.registry_url@ == docker_registry_spec() && p.0.stage == PullStage::Auth
            && (p.1 matches PullAction::FetchToken { url } && url@ == auth_url_spec(image->Some_0@))),
{
    if !str_eq(registry, "docker") {
        return Err(DockerRegistryError::UnsupportedRegistry);
    }
    let mut client = DockerRegistry::create();
    if let Some(name) = image {
        client.set_image_name(name);
    }
    client.start()
}

} // verus!
