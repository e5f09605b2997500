//! Pulling an image as an explicit state machine. The machine makes every
//! decision — which URL to fetch, how to judge each response, which layer
//! comes next, when to give up — while the caller only performs the requested
//! network and unpack actions and reports what it observed. Layers are
//! requested and extracted strictly in manifest order, one at a time, so a
//! later layer can overwrite what an earlier one wrote.

use vstd::prelude::*;
use vstd::pervasive::unreached;
use crate::errors::RunError;
use crate::image::ImageRef;
use crate::layers::{decode_layer, gunzip_of};
use crate::registry::{
    is_success_status, json_string_array_field_of, json_string_field_of, manifest_from_response,
    spec_auth_url, spec_blob_url, spec_manifest_url, token_from_response, RegistryEndpoint,
};

verus! {

/// Where the machine stands.
#[derive(Debug, Clone, Copy, PartialEq, Eq, Structural)]
pub enum PullPhase {
    /// Waiting for the auth endpoint's response.
    FetchingToken,
    /// Waiting for the manifest endpoint's response.
    FetchingManifest,
    /// Waiting for the current layer blob.
    FetchingLayer,
    /// Waiting for the outcome of unpacking the current layer.
    Extracting,
    /// Every layer landed on the root.
    Complete,
    /// The pull aborted; the `Abort` action carried the error.
    Failed,
}

/// What the caller must do next.
#[derive(Debug, Clone)]
pub enum PullAction {
    /// GET this URL, unauthenticated, and report the response.
    FetchToken { url: String },
    /// GET this URL with the bearer token and report the response.
    FetchManifest { url: String, token: String },
    /// GET this URL with the bearer token and report the response.
    FetchBlob { url: String, token: String },
    /// Unpack this tar archive onto the target root, preserving permission
    /// bits and extended attributes, and report whether it succeeded.
    ExtractArchive { archive: Vec<u8> },
    /// The pull is complete; nothing more to do.
    Finish,
    /// The pull failed; surface this error and stop.
    Abort { error: RunError },
}

/// What the caller observed for the last requested action.
#[derive(Debug, Clone)]
pub enum PullEvent {
    /// The outcome of a fetch: whether the transport succeeded at all, and
    /// if so the status and body.
    Response { transport_ok: bool, status: u16, body: Vec<u8> },
    /// Whether unpacking the handed-out archive succeeded.
    Extracted { ok: bool },
}

/// The state of one image pull.
#[derive(Debug, Clone)]
pub struct ImagePull {
    pub endpoint: RegistryEndpoint,
    pub image: ImageRef,
    pub token: Option<String>,
    pub digests: Vec<String>,
    pub next_layer: usize,
    pub phase: PullPhase,
}

impl ImagePull {
    /// The machine's invariant: the token exists once past authentication,
    /// and `next_layer` points at a real digest while layers are in flight.
    pub open spec fn wf(self) -> bool {
        &&& self.next_layer <= self.digests@.len()
        &&& (self.phase is FetchingManifest || self.phase is FetchingLayer || self.phase
            is Extracting) ==> self.token is Some
        &&& (self.phase is FetchingLayer || self.phase is Extracting) ==> self.next_layer
            < self.digests@.len()
        &&& (self.phase is FetchingToken || self.phase is FetchingManifest) ==> self.digests@.len()
            == 0 && self.next_layer == 0
    }

    /// The pull still wants an event.
    pub open spec fn in_progress(self) -> bool {
        !(self.phase is Complete) && !(self.phase is Failed)
    }

    /// Which kind of event the current phase waits for.
    pub open spec fn expects(self, event: PullEvent) -> bool {
        match self.phase {
            PullPhase::FetchingToken => event is Response,
            PullPhase::FetchingManifest => event is Response,
            PullPhase::FetchingLayer => event is Response,
            PullPhase::Extracting => event is Extracted,
            PullPhase::Complete => false,
            PullPhase::Failed => false,
        }
    }

    /// Executable check of `in_progress`, for callers outside the proof.
    pub fn is_in_progress(&self) -> (r: bool)
        ensures
            r == self.in_progress(),
    {
        match self.phase {
            PullPhase::Complete => false,
            PullPhase::Failed => false,
            _ => true,
        }
    }
}

/// The state keeps its token, digest list and position.
pub open spec fn pull_fields_frozen(pre: ImagePull, post: ImagePull) -> bool {
    &&& post.token == pre.token
    &&& post.digests@ == pre.digests@
    &&& post.next_layer == pre.next_layer
}

/// How a token response is judged: a 2xx body with a string `token` field
/// advances to the manifest fetch; anything else aborts with an
/// authentication error naming the image.
pub open spec fn token_step_post(
    pre: ImagePull,
    transport_ok: bool,
    status: u16,
    body: Seq<u8>,
    post: ImagePull,
    action: PullAction,
) -> bool {
    let tok = json_string_field_of(body, "token"@);
    if transport_ok && is_success_status(status) && tok is Some {
        &&& post.phase is FetchingManifest
        &&& post.token matches Some(t) && t@ == tok->Some_0
        &&& post.digests@ == pre.digests@
        &&& post.next_layer == pre.next_layer
        &&& action matches PullAction::FetchManifest { url, token } && url@ == spec_manifest_url(
            pre.endpoint,
            pre.image.name@,
            pre.image.tag@,
        ) && token@ == tok->Some_0
    } else {
        &&& pull_fields_frozen(pre, post)
        &&& post.phase is Failed
        &&& action matches PullAction::Abort { error } && error matches RunError::AuthError {
            image,
        } && image@ == pre.image.name@
    }
}

/// How a manifest response is judged: a 404 means the image or tag does not
/// exist; a transport failure is a network error; any other obstacle to
/// reading the layer list is a manifest error. An empty list completes the
/// pull at once; otherwise the first blob, and only the first, is requested.
pub open spec fn manifest_step_post(
    pre: ImagePull,
    transport_ok: bool,
    status: u16,
    body: Seq<u8>,
    post: ImagePull,
    action: PullAction,
) -> bool {
    let layers = json_string_array_field_of(body, "fsLayers"@, "blobSum"@);
    if !transport_ok {
        &&& pull_fields_frozen(pre, post)
        &&& post.phase is Failed
        &&& action matches PullAction::Abort { error } && error is NetworkError
    } else if status == 404 {
        &&& pull_fields_frozen(pre, post)
        &&& post.phase is Failed
        &&& action matches PullAction::Abort { error } && error
            matches RunError::NotFoundError { image, tag } && image@ == pre.image.name@ && tag@
            == pre.image.tag@
    } else if !is_success_status(status) || layers is None {
        &&& pull_fields_frozen(pre, post)
        &&& post.phase is Failed
        &&& action matches PullAction::Abort { error } && error
            matches RunError::ManifestError { image, tag } && image@ == pre.image.name@ && tag@
            == pre.image.tag@
    } else {
        let ds = layers->Some_0;
        &&& post.token == pre.token
        &&& post.digests.deep_view() == ds
        &&& post.next_layer == 0
        &&& if ds.len() == 0 {
            post.phase is Complete && action is Finish
        } else {
            &&& post.phase is FetchingLayer
            &&& action matches PullAction::FetchBlob { url, token } && url@ == spec_blob_url(
                pre.endpoint,
                pre.image.name@,
                ds[0],
            ) && (pre.token matches Some(pt) && token@ == pt@)
        }
    }
}

/// How a blob response is judged: a transport failure is a network error; a
/// non-2xx status or a body that is not a gzip stream is an extraction
/// failure naming the digest; otherwise the decoded archive is handed out.
pub open spec fn layer_step_post(
    pre: ImagePull,
    transport_ok: bool,
    status: u16,
    body: Seq<u8>,
    post: ImagePull,
    action: PullAction,
) -> bool {
    let digest = pre.digests@[pre.next_layer as int]@;
    if !transport_ok {
        &&& pull_fields_frozen(pre, post)
        &&& post.phase is Failed
        &&& action matches PullAction::Abort { error } && error is NetworkError
    } else if !is_success_status(status) || gunzip_of(body) is None {
        &&& pull_fields_frozen(pre, post)
        &&& post.phase is Failed
        &&& action matches PullAction::Abort { error } && error
            matches RunError::LayerExtractionError { digest: d } && d@ == digest
    } else {
        &&& pull_fields_frozen(pre, post)
        &&& post.phase is Extracting
        &&& action matches PullAction::ExtractArchive { archive } && gunzip_of(body) == Some(
            archive@,
        )
    }
}

/// How an unpack outcome is judged: failure aborts naming the digest;
/// success moves to the next layer in manifest order, or completes when the
/// one just placed was the last.
pub open spec fn extract_step_post(
    pre: ImagePull,
    ok: bool,
    post: ImagePull,
    action: PullAction,
) -> bool {
    if ok {
        &&& post.token == pre.token
        &&& post.digests@ == pre.digests@
        &&& post.next_layer == pre.next_layer + 1
        &&& if pre.next_layer + 1 == pre.digests@.len() {
            post.phase is Complete && action is Finish
        } else {
            &&& post.phase is FetchingLayer
            &&& action matches PullAction::FetchBlob { url, token } && url@ == spec_blob_url(
                pre.endpoint,
                pre.image.name@,
                pre.digests@[pre.next_layer + 1]@,
            ) && (pre.token matches Some(pt) && token@ == pt@)
        }
    } else {
        &&& pull_fields_frozen(pre, post)
        &&& post.phase is Failed
        &&& action matches PullAction::Abort { error } && error
            matches RunError::LayerExtractionError { digest: d } && d@ == pre.digests@[
            pre.next_layer as int]@
    }
}

/// The whole transition relation of one step.
pub open spec fn step_post(
    pre: ImagePull,
    event: PullEvent,
    post: ImagePull,
    action: PullAction,
) -> bool {
    &&& post.endpoint == pre.endpoint
    &&& post.image == pre.image
    &&& match pre.phase {
        PullPhase::FetchingToken => event matches PullEvent::Response {
            transport_ok,
            status,
            body,
        } && token_step_post(pre, transport_ok, status, body@, post, action),
        PullPhase::FetchingManifest => event matches PullEvent::Response {
            transport_ok,
            status,
            body,
        } && manifest_step_post(pre, transport_ok, status, body@, post, action),
        PullPhase::FetchingLayer => event matches PullEvent::Response {
            transport_ok,
            status,
            body,
        } && layer_step_post(pre, transport_ok, status, body@, post, action),
        PullPhase::Extracting => event matches PullEvent::Extracted { ok } && extract_step_post(
            pre,
            ok,
            post,
            action,
        ),
        PullPhase::Complete => false,
        PullPhase::Failed => false,
    }
}

/// Begins a pull of `image` from `endpoint`: the machine in its initial
/// state, together with the first action — fetching the pull token.
pub fn pull_image(endpoint: RegistryEndpoint, image: ImageRef) -> (r: (ImagePull, PullAction))
    ensures
        r.0.wf(),
        r.0.phase is FetchingToken,
        r.0.endpoint == endpoint,
        r.0.image == image,
        r.0.token is None,
        r.0.digests@.len() == 0,
        r.0.next_layer == 0,
        r.1 matches PullAction::FetchToken { url } && url@ == spec_auth_url(endpoint, image.name@),
{
    let url = endpoint.auth_url(image.name.as_str());
    let state = ImagePull {
        endpoint,
        image,
        token: None,
        digests: Vec::new(),
        next_layer: 0,
        phase: PullPhase::FetchingToken,
    };
    (state, PullAction::FetchToken { url })
}

impl ImagePull {
    /// Feeds back what the caller observed and decides the next action.
    pub fn step(&mut self, event: PullEvent) -> (action: PullAction)
        requires
            old(self).wf(),
            old(self).in_progress(),
            old(self).expects(event),
        ensures
            final(self).wf(),
            step_post(*old(self), event, *final(self), action),
    {
        match event {
            PullEvent::Response { transport_ok, status, body } => match self.phase {
                PullPhase::FetchingToken => {
                    match token_from_response(
                        self.image.name.as_str(),
                        transport_ok,
                        status,
                        body.as_slice(),
                    ) {
                        Ok(t) => {
                            let url = self.endpoint.manifest_url(
                                self.image.name.as_str(),
                                self.image.tag.as_str(),
                            );
                            self.token = Some(t.clone());
                            self.phase = PullPhase::FetchingManifest;
                            PullAction::FetchManifest { url, token: t }
                        },
                        Err(e) => {
                            self.phase = PullPhase::Failed;
                            PullAction::Abort { error: e }
                        },
                    }
                },
                PullPhase::FetchingManifest => {
                    match manifest_from_response(
                        self.image.name.as_str(),
                        self.image.tag.as_str(),
                        transport_ok,
                        status,
                        body.as_slice(),
                    ) {
                        Ok(layers) => {
                            self.digests = layers;
                            self.next_layer = 0;
                            if self.digests.len() == 0 {
                                self.phase = PullPhase::Complete;
                                PullAction::Finish
                            } else {
                                self.phase = PullPhase::FetchingLayer;
                                let url = self.endpoint.blob_url(
                                    self.image.name.as_str(),
                                    self.digests[0].as_str(),
                                );
                                let token = match &self.token {
                                    Some(t) => t.clone(),
                                    None => unreached(),
                                };
                                PullAction::FetchBlob { url, token }
                            }
                        },
                        Err(e) => {
                            self.phase = PullPhase::Failed;
                            PullAction::Abort { error: e }
                        },
                    }
                },
                PullPhase::FetchingLayer => {
                    if !transport_ok {
                        self.phase = PullPhase::Failed;
                        return PullAction::Abort { error: RunError::NetworkError };
                    }
                    if status < 200 || status >= 300 {
                        let digest = self.digests[self.next_layer].clone();
                        self.phase = PullPhase::Failed;
                        return PullAction::Abort {
                            error: RunError::LayerExtractionError { digest },
                        };
                    }
                    match decode_layer(self.digests[self.next_layer].as_str(), body.as_slice()) {
                        Ok(archive) => {
                            self.phase = PullPhase::Extracting;
                            PullAction::ExtractArchive { archive }
                        },
                        Err(e) => {
                            self.phase = PullPhase::Failed;
                            PullAction::Abort { error: e }
                        },
                    }
                },
                _ => unreached(),
            },
            PullEvent::Extracted { ok } => match self.phase {
                PullPhase::Extracting => {
                    if !ok {
                        let digest = self.digests[self.next_layer].clone();
                        self.phase = PullPhase::Failed;
                        return PullAction::Abort {
                            error: RunError::LayerExtractionError { digest },
                        };
                    }
                    let layer_count = self.digests.len();
                    self.next_layer = self.next_layer + 1;
                    if self.next_layer == layer_count {
                        self.phase = PullPhase::Complete;
                        PullAction::Finish
                    } else {
                        self.phase = PullPhase::FetchingLayer;
                        let url = self.endpoint.blob_url(
                            self.image.name.as_str(),
                            self.digests[self.next_layer].as_str(),
                        );
                        let token = match &self.token {
                            Some(t) => t.clone(),
                            None => unreached(),
                        };
                        PullAction::FetchBlob { url, token }
                    }
                },
                _ => unreached(),
            },
        }
    }
}

/// Law: a step ends the pull exactly when it says so — `Abort` is handed out
/// if and only if the machine is now failed, `Finish` if and only if it is
/// now complete — and a finished machine accepts no further event. So once
/// authentication (or any later stage) fails, no layer fetch ever follows.
pub proof fn lemma_step_outcome(pre: ImagePull, event: PullEvent, post: ImagePull, action: PullAction)
    requires
        pre.wf(),
        pre.in_progress(),
        step_post(pre, event, post, action),
    ensures
        action is Abort <==> post.phase is Failed,
        action is Finish <==> post.phase is Complete,
        post.phase is Failed || post.phase is Complete ==> !post.in_progress(),
{
}

/// Law: layers are applied strictly sequentially in manifest order. Once the
/// digest list is fetched a step never changes it, the position moves forward
/// by at most one layer, and every blob fetch asks for exactly the digest at
/// the machine's position — never an earlier, later, or foreign one.
pub proof fn lemma_layers_in_manifest_order(
    pre: ImagePull,
    event: PullEvent,
    post: ImagePull,
    action: PullAction,
)
    requires
        pre.wf(),
        pre.in_progress(),
        step_post(pre, event, post, action),
    ensures
        pre.phase is FetchingLayer || pre.phase is Extracting ==> post.digests@ == pre.digests@,
        post.next_layer == pre.next_layer || post.next_layer == pre.next_layer + 1,
        action matches PullAction::FetchBlob { url, token } ==> url@ == spec_blob_url(
            post.endpoint,
            post.image.name@,
            post.digests@[post.next_layer as int]@,
        ),
{
    if pre.phase is FetchingManifest {
        if action matches PullAction::FetchBlob { url, token } {
            assert(post.digests.deep_view()[0] == post.digests@[0]@);
        }
    }
}

} // verus!
