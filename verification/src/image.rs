//! The image-fetch logic: what the runtime decides when it pulls a
//! `name:tag` image from the Docker registry.
//!
//! The network itself is the unverified driver's job.  This module parses
//! the reference, builds each URL, picks the manifest and the layer, maps
//! transport failures to [`DockerError`], and sequences the whole exchange
//! as the [`Download`] step machine: the driver performs one
//! [`DownloadAction`] at a time and reports what came back.
use vstd::prelude::*;
use vstd::string::StrSliceExecFns;
use vstd::string::StringExecFns;

verus! {

/// Why an image could not be downloaded.
#[derive(Clone, Copy, Debug, PartialEq, Eq, Structural)]
pub enum DockerError {
    /// A request failed before any HTTP status came back.
    RequestFailed,
    /// A response body could not be read or decoded.
    Parse,
    /// A request came back with this HTTP status.
    Http(u16),
    /// A layer could not be read as a gzip stream.
    Extract,
    /// The reference is not of the form `name:tag`.
    InvalidImage,
    /// The manifest list has no `amd64` entry.
    ArchitectureNotFound,
    /// A layer could not be unpacked into the target directory.
    Unpack,
}

/// How many colons `s` holds.
pub open spec fn count_colons(s: Seq<char>) -> nat
    decreases s.len(),
{
    if s.len() == 0 {
        0
    } else {
        count_colons(s.drop_last()) + if s.last() == ':' {
            1nat
        } else {
            0nat
        }
    }
}

/// Splits a `name:tag` image reference at its colon.  Succeeds exactly when
/// the reference holds one colon; the two parts are then the text on either
/// side of it, either of which may be empty.
pub fn parse_image_reference(image: &str) -> (r: Result<(String, String), DockerError>)
    ensures
        r is Ok <==> count_colons(image@) == 1,
        r is Err ==> r->Err_0 is InvalidImage,
        r is Ok ==> ({
            let (name, tag) = r->Ok_0;
            &&& image@ == name@ + seq![':'] + tag@
            &&& count_colons(name@) == 0
            &&& count_colons(tag@) == 0
        }),
{
    let len = image.unicode_len();
    let mut count: usize = 0;
    let mut first: usize = 0;
    let mut i: usize = 0;
    while i < len
        invariant
            i <= len,
            len == image@.len(),
            count <= i,
            count == count_colons(image@.take(i as int)),
            count > 0 ==> first < i && image@[first as int] == ':',
            count == 1 ==> forall|j: int|
                0 <= j < i && j != first ==> #[trigger] image@[j] != ':',
            count == 0 ==> forall|j: int| 0 <= j < i ==> #[trigger] image@[j] != ':',
        decreases len - i,
    {
        proof {
            assert(image@.take(i + 1 as int).drop_last() =~= image@.take(i as int));
            assert(image@.take(i + 1 as int).last() == image@[i as int]);
        }
        if image.get_char(i) == ':' {
            if count == 0 {
                first = i;
            }
            count = count + 1;
        }
        i = i + 1;
    }
    proof {
        assert(image@.take(len as int) =~= image@);
    }
    if count != 1 {
        return Err(DockerError::InvalidImage);
    }
    let name = image.substring_char(0, first);
    let tag = image.substring_char(first + 1, len);
    proof {
        assert(image@ =~= name@ + seq![':'] + tag@);
        lemma_colon_free(name@);
        lemma_colon_free(tag@);
    }
    Ok((String::from_str(name), String::from_str(tag)))
}

/// A sequence without colons counts zero of them.
proof fn lemma_colon_free(s: Seq<char>)
    requires
        forall|j: int| 0 <= j < s.len() ==> #[trigger] s[j] != ':',
    ensures
        count_colons(s) == 0,
    decreases s.len(),
{
    if s.len() > 0 {
        lemma_colon_free(s.drop_last());
    }
}

/// The URL of the Docker Hub auth endpoint for a repository.
pub open spec fn spec_auth_url(name: Seq<char>) -> Seq<char> {
    "https://auth.docker.io/token?service=registry.docker.io&scope=repository:"@ + name
        + ":pull"@
}

/// The URL of the registry's manifest endpoint for a repository and a
/// reference — a tag, or a digest from a manifest list.
pub open spec fn spec_manifest_url(name: Seq<char>, reference: Seq<char>) -> Seq<char> {
    "https://registry-1.docker.io/v2/"@ + name + "/manifests/"@ + reference
}

/// The URL of the registry's blob endpoint for a layer digest.
pub open spec fn spec_blob_url(name: Seq<char>, digest: Seq<char>) -> Seq<char> {
    "https://registry-1.docker.io/v2/"@ + name + "/blobs/"@ + digest
}

/// The Docker Hub auth endpoint that hands out an anonymous pull token
/// scoped to the repository.
pub fn auth_url(image_name: &str) -> (s: String)
    ensures
        s@ == spec_auth_url(image_name@),
{
    String::from_str(
        "https://auth.docker.io/token?service=registry.docker.io&scope=repository:",
    ).concat(image_name).concat(":pull")
}

/// The registry's manifest endpoint for a repository and a reference — a
/// tag, or a digest from a manifest list.
pub fn manifest_url(image_name: &str, reference: &str) -> (s: String)
    ensures
        s@ == spec_manifest_url(image_name@, reference@),
{
    String::from_str("https://registry-1.docker.io/v2/").concat(image_name).concat(
        "/manifests/",
    ).concat(reference)
}

/// The registry's blob endpoint for a layer digest.
pub fn blob_url(image_name: &str, digest: &str) -> (s: String)
    ensures
        s@ == spec_blob_url(image_name@, digest@),
{
    String::from_str("https://registry-1.docker.io/v2/").concat(image_name).concat(
        "/blobs/",
    ).concat(digest)
}

/// One entry of a manifest list: a per-architecture manifest's digest and
/// media type, and the platform it is for.
pub struct ManifestEntry {
    /// The digest under which the manifest can be fetched.
    pub digest: String,
    /// The media type to ask for when fetching it.
    pub media_type: String,
    /// The platform's architecture, for example `amd64`.
    pub architecture: String,
}

/// One layer entry of a manifest: the digest of a gzip-compressed tar blob.
pub struct LayerEntry {
    /// The digest under which the blob can be fetched.
    pub digest: String,
    /// The blob's media type.
    pub media_type: String,
}

/// Picks from a manifest list the entry the runtime uses: the first whose
/// platform architecture is `amd64`.  Fails with `ArchitectureNotFound`
/// exactly when no entry matches.
pub fn select_manifest(entries: &Vec<ManifestEntry>) -> (r: Result<usize, DockerError>)
    ensures
        match r {
            Ok(i) => {
                &&& i < entries@.len()
                &&& entries@[i as int].architecture@ == "amd64"@
                &&& forall|j: int| 0 <= j < i ==> entries@[j].architecture@ != "amd64"@
            },
            Err(e) => {
                &&& e is ArchitectureNotFound
                &&& forall|j: int|
                    0 <= j < entries@.len() ==> entries@[j].architecture@ != "amd64"@
            },
        },
{
    let amd64 = String::from_str("amd64");
    let mut i: usize = 0;
    while i < entries.len()
        invariant
            i <= entries@.len(),
            amd64@ == "amd64"@,
            forall|j: int| 0 <= j < i ==> entries@[j].architecture@ != "amd64"@,
        decreases entries@.len() - i,
    {
        if entries[i].architecture == amd64 {
            return Ok(i);
        }
        i = i + 1;
    }
    Err(DockerError::ArchitectureNotFound)
}

/// Picks from a manifest the layer the runtime downloads: the last one.
/// Fails with `Parse` exactly when the manifest has no layers, since an
/// empty layer list is a malformed manifest.
pub fn select_layer(layers: &Vec<LayerEntry>) -> (r: Result<usize, DockerError>)
    ensures
        match r {
            Ok(i) => layers@.len() > 0 && i == layers@.len() - 1,
            Err(e) => e is Parse && layers@.len() == 0,
        },
{
    if layers.len() == 0 {
        return Err(DockerError::Parse);
    }
    Ok(layers.len() - 1)
}

/// The error a failed request maps to: the HTTP status where one came
/// back, otherwise a transport failure.
pub open spec fn spec_http_error(status: Option<u16>) -> DockerError {
    match status {
        Some(code) => DockerError::Http(code),
        None => DockerError::RequestFailed,
    }
}

/// Maps a failed request to its error.
pub fn http_error(status: Option<u16>) -> (e: DockerError)
    ensures
        e == spec_http_error(status),
{
    match status {
        Some(code) => DockerError::Http(code),
        None => DockerError::RequestFailed,
    }
}

/// `i` is the entry [`select_manifest`] picks: the first `amd64` one.
pub open spec fn first_amd64_at(entries: Seq<ManifestEntry>, i: int) -> bool {
    &&& 0 <= i < entries.len()
    &&& entries[i].architecture@ == "amd64"@
    &&& forall|j: int| 0 <= j < i ==> entries[j].architecture@ != "amd64"@
}

/// Where the download exchange stands.
#[derive(Clone, Copy, Debug, PartialEq, Eq, Structural)]
pub enum DownloadPhase {
    /// Nothing requested yet.
    Start,
    /// The auth token was requested.
    AwaitToken,
    /// The manifest list was requested.
    AwaitManifestList,
    /// The per-architecture manifest was requested.
    AwaitManifest,
    /// The layer blob was requested.
    AwaitBlob,
    /// The layer is unpacked in the output directory.
    Done,
    /// The exchange failed; the error field says why.
    Failed,
}

/// What came back for the last request.
pub enum DownloadEvent {
    /// Begins the exchange; fed once, before any request.
    Begin,
    /// The token endpoint answered, and its JSON body held this token.
    Token { token: String },
    /// The manifest list arrived: one entry per platform.
    ManifestList { entries: Vec<ManifestEntry> },
    /// The manifest arrived: its layers, in order.
    Manifest { layers: Vec<LayerEntry> },
    /// The blob arrived and was unpacked into the output directory.
    Unpacked,
    /// A request failed, with this HTTP status if one came back.
    HttpFailed { status: Option<u16> },
    /// A response body could not be read or decoded.
    ParseFailed,
    /// The blob could not be unpacked.
    UnpackFailed,
}

/// What the driver must perform next.
pub enum DownloadAction {
    /// GET the URL without authorisation and decode the JSON body's token.
    GetToken { url: String },
    /// GET the URL with the bearer token, asking for the given media type
    /// in the accept header, and decode the body as a manifest list.
    GetManifestList { url: String, token: String, accept: String },
    /// As above, but decode the body as a single manifest.
    GetManifest { url: String, token: String, accept: String },
    /// GET the blob with the bearer token and unpack the body — a
    /// gzip-compressed tar stream — into the output directory.
    FetchBlob { url: String, token: String, output: String },
    /// The exchange is over; nothing is left to perform.
    Finished,
}

/// The download exchange: which request is in flight and what the next one
/// is built from.
pub struct Download {
    /// Where the exchange stands.
    pub phase: DownloadPhase,
    /// The repository name, left of the reference's colon.
    pub image_name: String,
    /// The tag, right of the reference's colon.
    pub image_version: String,
    /// The directory the layer is unpacked into.
    pub output: String,
    /// The pull token, once the auth endpoint answered; empty before that.
    pub token: String,
    /// Why the exchange failed, once it has.
    pub error: Option<DockerError>,
}

/// Which events can arrive while the exchange stands where it does.
pub open spec fn step_enabled(pre: Download, ev: DownloadEvent) -> bool {
    match pre.phase {
        DownloadPhase::Start => ev is Begin,
        DownloadPhase::AwaitToken => ev is Token || ev is HttpFailed || ev is ParseFailed,
        DownloadPhase::AwaitManifestList => ev is ManifestList || ev is HttpFailed
            || ev is ParseFailed,
        DownloadPhase::AwaitManifest => ev is Manifest || ev is HttpFailed || ev is ParseFailed,
        DownloadPhase::AwaitBlob => ev is Unpacked || ev is HttpFailed || ev is ParseFailed
            || ev is UnpackFailed,
        DownloadPhase::Done => false,
        DownloadPhase::Failed => false,
    }
}

/// How one answer advances the exchange: which request is issued next, or
/// how it ends.  This is the contract of [`Download::step`].
pub open spec fn step_spec(
    pre: Download,
    ev: DownloadEvent,
    post: Download,
    a: DownloadAction,
) -> bool {
    &&& post.image_name == pre.image_name
    &&& post.image_version == pre.image_version
    &&& post.output == pre.output
    &&& match ev {
        DownloadEvent::Begin => {
            &&& post.phase is AwaitToken
            &&& post.token == pre.token
            &&& post.error == pre.error
            &&& a matches DownloadAction::GetToken { url } && url@ == spec_auth_url(
                pre.image_name@,
            )
        },
        DownloadEvent::Token { token } => {
            &&& post.phase is AwaitManifestList
            &&& post.token == token
            &&& post.error == pre.error
            &&& a matches DownloadAction::GetManifestList { url, token: t, accept } && url@
                == spec_manifest_url(pre.image_name@, pre.image_version@) && t == token
                && accept@ == "application/vnd.docker.distribution.manifest.list.v2+json"@
        },
        DownloadEvent::ManifestList { entries } => {
            &&& post.token == pre.token
            &&& if exists|i: int| first_amd64_at(entries@, i) {
                &&& post.phase is AwaitManifest
                &&& post.error == pre.error
                &&& a matches DownloadAction::GetManifest { url, token: t, accept }
                    && exists|i: int|
                    {
                        &&& #[trigger] first_amd64_at(entries@, i)
                        &&& url@ == spec_manifest_url(pre.image_name@, entries@[i].digest@)
                        &&& accept@ == entries@[i].media_type@
                    } && t == pre.token
            } else {
                &&& post.phase is Failed
                &&& post.error == Some(DockerError::ArchitectureNotFound)
                &&& a is Finished
            }
        },
        DownloadEvent::Manifest { layers } => {
            &&& post.token == pre.token
            &&& if layers@.len() > 0 {
                &&& post.phase is AwaitBlob
                &&& post.error == pre.error
                &&& a matches DownloadAction::FetchBlob { url, token: t, output } && url@
                    == spec_blob_url(pre.image_name@, layers@.last().digest@) && t == pre.token
                    && output == pre.output
            } else {
                &&& post.phase is Failed
                &&& post.error == Some(DockerError::Parse)
                &&& a is Finished
            }
        },
        DownloadEvent::Unpacked => {
            &&& post.phase is Done
            &&& post.token == pre.token
            &&& post.error == pre.error
            &&& a is Finished
        },
        DownloadEvent::HttpFailed { status } => {
            &&& post.phase is Failed
            &&& post.token == pre.token
            &&& post.error == Some(spec_http_error(status))
            &&& a is Finished
        },
        DownloadEvent::ParseFailed => {
            &&& post.phase is Failed
            &&& post.token == pre.token
            &&& post.error == Some(DockerError::Parse)
            &&& a is Finished
        },
        DownloadEvent::UnpackFailed => {
            &&& post.phase is Failed
            &&& post.token == pre.token
            &&& post.error == Some(DockerError::Unpack)
            &&& a is Finished
        },
    }
}

/// Begins a download of `image` into the directory `output`.  Accepts the
/// reference exactly when it is `name:tag`; the returned machine then
/// sequences the exchange, one request at a time.
pub fn download(image: &str, output: &str) -> (r: Result<Download, DockerError>)
    ensures
        r is Ok <==> count_colons(image@) == 1,
        r is Err ==> r->Err_0 is InvalidImage,
        r is Ok ==> ({
            let d = r->Ok_0;
            &&& d.phase is Start
            &&& image@ == d.image_name@ + seq![':'] + d.image_version@
            &&& count_colons(d.image_name@) == 0
            &&& count_colons(d.image_version@) == 0
            &&& d.output@ == output@
            &&& d.error is None
        }),
{
    let (image_name, image_version) = match parse_image_reference(image) {
        Ok(parts) => parts,
        Err(e) => {
            return Err(e);
        },
    };
    Ok(
        Download {
            phase: DownloadPhase::Start,
            image_name,
            image_version,
            output: String::from_str(output),
            token: String::new(),
            error: None,
        },
    )
}

impl Download {
    /// Feeds the machine what came back for the last request and returns
    /// what to perform next, as [`step_spec`] describes it.
    pub fn step(&mut self, ev: DownloadEvent) -> (a: DownloadAction)
        requires
            step_enabled(*old(self), ev),
        ensures
            step_spec(*old(self), ev, *final(self), a),
    {
        match ev {
            DownloadEvent::Begin => {
                self.phase = DownloadPhase::AwaitToken;
                DownloadAction::GetToken { url: auth_url(self.image_name.as_str()) }
            },
            DownloadEvent::Token { token } => {
                self.phase = DownloadPhase::AwaitManifestList;
                self.token = token.clone();
                DownloadAction::GetManifestList {
                    url: manifest_url(self.image_name.as_str(), self.image_version.as_str()),
                    token,
                    accept: String::from_str(
                        "application/vnd.docker.distribution.manifest.list.v2+json",
                    ),
                }
            },
            DownloadEvent::ManifestList { entries } => {
                match select_manifest(&entries) {
                    Ok(i) => {
                        self.phase = DownloadPhase::AwaitManifest;
                        let entry = &entries[i];
                        proof {
                            assert(first_amd64_at(entries@, i as int));
                        }
                        DownloadAction::GetManifest {
                            url: manifest_url(self.image_name.as_str(), entry.digest.as_str()),
                            token: self.token.clone(),
                            accept: entry.media_type.clone(),
                        }
                    },
                    Err(e) => {
                        self.phase = DownloadPhase::Failed;
                        self.error = Some(e);
                        DownloadAction::Finished
                    },
                }
            },
            DownloadEvent::Manifest { layers } => {
                match select_layer(&layers) {
                    Ok(i) => {
                        self.phase = DownloadPhase::AwaitBlob;
                        DownloadAction::FetchBlob {
                            url: blob_url(self.image_name.as_str(), layers[i].digest.as_str()),
                            token: self.token.clone(),
                            output: self.output.clone(),
                        }
                    },
                    Err(e) => {
                        self.phase = DownloadPhase::Failed;
                        self.error = Some(e);
                        DownloadAction::Finished
                    },
                }
            },
            DownloadEvent::Unpacked => {
                self.phase = DownloadPhase::Done;
                DownloadAction::Finished
            },
            DownloadEvent::HttpFailed { status } => {
                self.phase = DownloadPhase::Failed;
                self.error = Some(http_error(status));
                DownloadAction::Finished
            },
            DownloadEvent::ParseFailed => {
                self.phase = DownloadPhase::Failed;
                self.error = Some(DockerError::Parse);
                DownloadAction::Finished
            },
            DownloadEvent::UnpackFailed => {
                self.phase = DownloadPhase::Failed;
                self.error = Some(DockerError::Unpack);
                DownloadAction::Finished
            },
        }
    }

    /// How the exchange ended: `None` while it is still under way.
    pub fn result(&self) -> (r: Option<Result<(), DockerError>>)
        ensures
            self.phase is Done ==> r == Some(Result::<(), DockerError>::Ok(())),
            self.phase is Failed && self.error is Some ==> r == Some(
                Result::<(), DockerError>::Err(self.error->0),
            ),
            !(self.phase is Done) && !(self.phase is Failed) ==> r is None,
    {
        match self.phase {
            DownloadPhase::Done => Some(Ok(())),
            DownloadPhase::Failed => Some(
                Err(
                    match self.error {
                        Some(e) => e,
                        None => DockerError::RequestFailed,
                    },
                ),
            ),
            _ => None,
        }
    }
}

} // verus!
