use vstd::prelude::*;

use crate::template::{parse_template, template_named, SetupTemplate};

verus! {

/// Settings of the remote hosting repository that the pipeline creates.
#[derive(Clone, Debug)]
pub struct RemoteSettings {
    pub name: String,
    pub private: bool,
    pub token: String,
}

pub struct RemoteView {
    pub name: Seq<char>,
    pub private: bool,
    pub token: Seq<char>,
}

impl View for RemoteSettings {
    type V = RemoteView;

    open spec fn view(&self) -> RemoteView {
        RemoteView { name: self.name@, private: self.private, token: self.token@ }
    }
}

/// A validated bootstrap request.
#[derive(Clone, Debug)]
pub struct BootstrapRequest {
    pub project_name: String,
    pub template: SetupTemplate,
    pub remote: Option<RemoteSettings>,
}

pub struct RequestView {
    pub project_name: Seq<char>,
    pub template: SetupTemplate,
    pub remote: Option<RemoteView>,
}

impl View for BootstrapRequest {
    type V = RequestView;

    open spec fn view(&self) -> RequestView {
        RequestView {
            project_name: self.project_name@,
            template: self.template,
            remote: match self.remote {
                Some(r) => Some(r@),
                None => None,
            },
        }
    }
}

/// Why the raw arguments do not make a request.
#[derive(Clone, Copy, Debug, PartialEq, Eq, Structural)]
pub enum ConfigError {
    /// The setup template is not one of the four identifiers.
    InvalidTemplate,
    /// Remote hosting was asked for without an access token.
    MissingCredential,
}

pub open spec fn text_of(o: Option<String>) -> Option<Seq<char>> {
    match o {
        Some(s) => Some(s@),
        None => None,
    }
}

/// Whether an optional access token is absent or empty.
pub open spec fn credential_missing(token: Option<Seq<char>>) -> bool {
    match token {
        Some(t) => t.len() == 0,
        None => true,
    }
}

/// The request that the raw arguments resolve to, or why they do not.
/// The template is checked first, then the credential; nothing else fails.
pub open spec fn resolution(
    project_name: Seq<char>,
    setup: Seq<char>,
    remote_requested: bool,
    remote_name: Option<Seq<char>>,
    private: bool,
    token: Option<Seq<char>>,
) -> Result<RequestView, ConfigError> {
    match template_named(setup) {
        None => Err(ConfigError::InvalidTemplate),
        Some(t) => if remote_requested && credential_missing(token) {
            Err(ConfigError::MissingCredential)
        } else {
            Ok(
                RequestView {
                    project_name,
                    template: t,
                    remote: if remote_requested {
                        Some(
                            RemoteView {
                                name: match remote_name {
                                    Some(n) => n,
                                    None => project_name,
                                },
                                private,
                                token: token.unwrap(),
                            },
                        )
                    } else {
                        None
                    },
                },
            )
        },
    }
}

pub open spec fn request_result_view(r: Result<BootstrapRequest, ConfigError>) -> Result<
    RequestView,
    ConfigError,
> {
    match r {
        Ok(q) => Ok(q@),
        Err(e) => Err(e),
    }
}

/// Validates the raw arguments: the template identifier must be recognised,
/// and remote hosting needs a non-empty token. The remote repository is
/// named after the project unless a name is given. Nothing is touched.
pub fn resolve(
    project_name: String,
    setup: &str,
    remote_requested: bool,
    remote_name: Option<String>,
    private: bool,
    token: Option<String>,
) -> (r: Result<BootstrapRequest, ConfigError>)
    ensures
        request_result_view(r) == resolution(
            project_name@,
            setup@,
            remote_requested,
            text_of(remote_name),
            private,
            text_of(token),
        ),
{
    let template = match parse_template(setup) {
        Some(t) => t,
        None => {
            return Err(ConfigError::InvalidTemplate);
        },
    };
    if !remote_requested {
        return Ok(BootstrapRequest { project_name, template, remote: None });
    }
    let token = match token {
        Some(t) => {
            if t.as_str().is_empty() {
                return Err(ConfigError::MissingCredential);
            }
            t
        },
        None => {
            return Err(ConfigError::MissingCredential);
        },
    };
    let name = match remote_name {
        Some(n) => n,
        None => project_name.clone(),
    };
    let remote = RemoteSettings { name, private, token };
    Ok(BootstrapRequest { project_name, template, remote: Some(remote) })
}

} // verus!
