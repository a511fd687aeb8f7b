use vstd::prelude::*;

use crate::pull::{DockerRegistryError, PullAction, PullSession, PullStage, manifest_url_spec, MANIFEST_MEDIA_TYPE};

verus! {

/// The Docker Hub registry API.
pub const DOCKER_REGISTRY_URL: &'static str = "https://registry-1.docker.io/v2";

pub open spec fn docker_registry_spec() -> Seq<char> {
    "https://registry-1.docker.io/v2"@
}

pub open spec fn auth_url_spec(image: Seq<char>) -> Seq<char> {
    "https://auth.docker.io/token?scope=repository:"@ + image + ":pull&service=registry.docker.io"@
}

/// A registry that images can be pulled from.
pub trait Registry: Sized {
    /// The image that a pull would fetch, once named.
    spec fn requested_image(&self) -> Option<Seq<char>>;

    fn new() -> (r: Self)
        ensures
            r.requested_image() is None,
    ;

    fn image_name(&mut self, image_name: String)
        ensures
            final(self).requested_image() == Some(image_name@),
    ;

    /// Starts a pull of the named image; fails where no image was named.
    fn get(self) -> (r: Result<(PullSession, PullAction), DockerRegistryError>)
        ensures
            self.requested_image() is None <==> r == Err::<(PullSession, PullAction), DockerRegistryError>(
                DockerRegistryError::ImageNameNotGiven,
            ),
            self.requested_image() is Some <==> r is Ok,
            r matches Ok(p) ==> p.0.wf() && Some(p.0.image@) == self.requested_image(),
    ;
}

/// The Docker Hub registry.
pub struct DockerRegistry {
    pub image_name: Option<String>,
    pub registry_url: String,
    pub auth_token: Option<String>,
}

pub open spec fn name_view(n: Option<String>) -> Option<Seq<char>> {
    match n {
        Some(s) => Some(s@),
        None => None,
    }
}

/// The token service URL for pulling `image`.
pub fn auth_url(image: &str) -> (r: String)
    ensures
        r@ == auth_url_spec(image@),
{
    String::from_str("https://auth.docker.io/token?scope=repository:").concat(image).concat(
        ":pull&service=registry.docker.io",
    )
}

impl Registry for DockerRegistry {
    open spec fn requested_image(&self) -> Option<Seq<char>> {
        name_view(self.image_name)
    }

    fn new() -> (r: DockerRegistry) {
        DockerRegistry::create()
    }

    fn image_name(&mut self, image_name: String) {
        self.set_image_name(image_name);
    }

    fn get(self) -> (r: Result<(PullSession, PullAction), DockerRegistryError>) {
        self.start()
    }
}

impl DockerRegistry {
    /// A client of Docker Hub with no image named and no token.
    pub fn create() -> (r: DockerRegistry)
        ensures
            r.image_name is None,
            r.auth_token is None,
            r.registry_url@ == docker_registry_spec(),
    {
        DockerRegistry { image_name: None, registry_url: String::from_str(DOCKER_REGISTRY_URL), auth_token: None }
    }

    pub fn set_image_name(&mut self, image_name: String)
        ensures
            final(self).image_name matches Some(n) && n@ == image_name@,
            final(self).registry_url == old(self).registry_url,
            final(self).auth_token == old(self).auth_token,
    {
        self.image_name = Some(image_name);
    }

    /// Starts the pull: with no token yet, the first action asks the token service.
    pub fn start(self) -> (r: Result<(PullSession, PullAction), DockerRegistryError>)
        ensures
            self.image_name is None <==> r == Err::<(PullSession, PullAction), DockerRegistryError>(
                DockerRegistryError::ImageNameNotGiven,
            ),
            self.image_name is Some <==> r is Ok,
            r matches Ok(p) ==> p.0.wf() && p.0.image@ == self.image_name->Some_0@
                && p.0.registry_url@ == self.registry_url@ && p.0.digests@.len() == 0,
            self.auth_token is None ==> (r matches Ok(p) ==> p.0.stage == PullStage::Auth
                && (p.1 matches PullAction::FetchToken { url } && url@ == auth_url_spec(self.image_name->Some_0@))),
            self.auth_token matches Some(t) ==> (r matches Ok(p) ==> p.0.stage == PullStage::Manifest
                && (p.1 matches PullAction::FetchManifest { url, token, accept }
                && url@ == manifest_url_spec(self.registry_url@, self.image_name->Some_0@)
                && token@ == t@ && accept@ == MANIFEST_MEDIA_TYPE@)),
    {
        match self.image_name {
            None => Err(DockerRegistryError::ImageNameNotGiven),
            Some(image) => {
                let url = auth_url(image.as_str());
                Ok(PullSession::start(self.registry_url, image, url, self.auth_token))
            },
        }
    }
}

} // verus!
