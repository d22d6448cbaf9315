//! Docker errors explained with steps that resolve them.

use vstd::prelude::*;
use crate::style::{piece_views, render, shows_pieces, Paint, Piece};
use crate::text::{chars_of, contains_str, spec_contains};

verus! {

/// The Docker failures that get specific guidance.
#[derive(Debug, Clone)]
pub enum DockerErrorKind {
    NotRunning,
    SocketNotFound,
    PermissionDenied,
    /// Cannot connect, with the reason.
    Connection(String),
    /// A container operation failed, with the reason.
    Container(String),
    Other,
}

/// A Docker error: what kind it is, and how it describes itself.
#[derive(Debug, Clone)]
pub struct DockerErrorInfo {
    pub kind: DockerErrorKind,
    pub display: String,
}

pub const TROUBLESHOOTING_URL: &'static str = "https://github.com/pRizz/opencode-cloud#troubleshooting";

/// The pieces of the guidance for an error; a container error mentioning a port is
/// a port conflict; errors without guidance show their own description.
pub open spec fn spec_docker_error_pieces(e: DockerErrorInfo) -> Seq<Piece> {
    let docs = seq![("\n\n  "@, None), ("Docs"@, Some(Paint::Dim)), (": "@, None), (TROUBLESHOOTING_URL@, Some(Paint::Dim))];
    match e.kind {
        DockerErrorKind::NotRunning => seq![
            ("Docker is not responding"@, Some(Paint::RedBold)),
            ("\n\n  "@, None),
            ("Start or restart the Docker daemon:"@, None),
            ("\n  "@, None),
            ("  Linux:  sudo systemctl start docker"@, Some(Paint::Cyan)),
            ("\n  "@, None),
            ("  Linux:  sudo systemctl restart docker"@, Some(Paint::Cyan)),
        ] + docs,
        DockerErrorKind::SocketNotFound => seq![
            ("Docker socket not found"@, Some(Paint::RedBold)),
            ("\n\n  "@, None),
            ("Docker may not be installed or the service isn't running:"@, None),
            ("\n  "@, None),
            ("  Linux:  sudo apt-get install docker.io"@, Some(Paint::Cyan)),
            ("\n  "@, None),
            ("  Linux:  sudo systemctl enable --now docker"@, Some(Paint::Cyan)),
            ("\n  "@, None),
            ("Then verify the socket exists at /var/run/docker.sock (Linux default)."@, None),
        ] + docs,
        DockerErrorKind::PermissionDenied => seq![
            ("Permission denied accessing Docker"@, Some(Paint::RedBold)),
            ("\n\n  "@, None),
            ("Your user likely lacks access to the Docker socket."@, None),
            ("\n  "@, None),
            ("  Check: docker ps"@, Some(Paint::Cyan)),
            ("\n  "@, None),
            ("  Check: ls -l /var/run/docker.sock"@, Some(Paint::Cyan)),
            ("\n\n  "@, None),
            ("Fix (Linux):"@, None),
            ("\n  "@, None),
            ("  sudo usermod -aG docker $USER"@, Some(Paint::Cyan)),
            ("\n  "@, None),
            ("Then log out and back in (or run: newgrp docker)."@, None),
        ] + docs,
        DockerErrorKind::Connection(msg) => seq![
            ("Cannot connect to Docker"@, Some(Paint::RedBold)),
            ("\n\n  "@, None),
            (msg@, None),
        ] + docs,
        DockerErrorKind::Container(msg) => if spec_contains(msg@, "port"@) {
            seq![
                ("Port conflict"@, Some(Paint::RedBold)),
                ("\n\n  "@, None),
                (msg@, None),
                ("\n  "@, None),
                ("  Try: occ start --port <different-port>"@, Some(Paint::Cyan)),
            ] + docs
        } else {
            seq![(e.display@, None)]
        },
        DockerErrorKind::Other => seq![(e.display@, None)],
    }
}

fn push_docs<'a>(v: &mut Vec<(&'a str, Option<Paint>)>)
    ensures
        piece_views(final(v)@) == piece_views(old(v)@) + seq![
            ("\n\n  "@, None),
            ("Docs"@, Some(Paint::Dim)),
            (": "@, None),
            (TROUBLESHOOTING_URL@, Some(Paint::Dim)),
        ],
{
    v.push(("\n\n  ", None));
    v.push(("Docs", Some(Paint::Dim)));
    v.push((": ", None));
    v.push((TROUBLESHOOTING_URL, Some(Paint::Dim)));
    assert(piece_views(v@) =~= piece_views(old(v)@) + seq![
        ("\n\n  "@, None),
        ("Docs"@, Some(Paint::Dim)),
        (": "@, None),
        (TROUBLESHOOTING_URL@, Some(Paint::Dim)),
    ]);
}

/// The guidance shown for a Docker error.
pub fn format_docker_error(e: &DockerErrorInfo) -> (s: String)
    ensures
        shows_pieces(s@, spec_docker_error_pieces(*e)),
{
    let mut v: Vec<(&str, Option<Paint>)> = Vec::new();
    match &e.kind {
        DockerErrorKind::NotRunning => {
            v.push(("Docker is not responding", Some(Paint::RedBold)));
            v.push(("\n\n  ", None));
            v.push(("Start or restart the Docker daemon:", None));
            v.push(("\n  ", None));
            v.push(("  Linux:  sudo systemctl start docker", Some(Paint::Cyan)));
            v.push(("\n  ", None));
            v.push(("  Linux:  sudo systemctl restart docker", Some(Paint::Cyan)));
            push_docs(&mut v);
        },
        DockerErrorKind::SocketNotFound => {
            v.push(("Docker socket not found", Some(Paint::RedBold)));
            v.push(("\n\n  ", None));
            v.push(("Docker may not be installed or the service isn't running:", None));
            v.push(("\n  ", None));
            v.push(("  Linux:  sudo apt-get install docker.io", Some(Paint::Cyan)));
            v.push(("\n  ", None));
            v.push(("  Linux:  sudo systemctl enable --now docker", Some(Paint::Cyan)));
            v.push(("\n  ", None));
            v.push(("Then verify the socket exists at /var/run/docker.sock (Linux default).", None));
            push_docs(&mut v);
        },
        DockerErrorKind::PermissionDenied => {
            v.push(("Permission denied accessing Docker", Some(Paint::RedBold)));
            v.push(("\n\n  ", None));
            v.push(("Your user likely lacks access to the Docker socket.", None));
            v.push(("\n  ", None));
            v.push(("  Check: docker ps", Some(Paint::Cyan)));
            v.push(("\n  ", None));
            v.push(("  Check: ls -l /var/run/docker.sock", Some(Paint::Cyan)));
            v.push(("\n\n  ", None));
            v.push(("Fix (Linux):", None));
            v.push(("\n  ", None));
            v.push(("  sudo usermod -aG docker $USER", Some(Paint::Cyan)));
            v.push(("\n  ", None));
            v.push(("Then log out and back in (or run: newgrp docker).", None));
            push_docs(&mut v);
        },
        DockerErrorKind::Connection(msg) => {
            v.push(("Cannot connect to Docker", Some(Paint::RedBold)));
            v.push(("\n\n  ", None));
            v.push((msg.as_str(), None));
            push_docs(&mut v);
        },
        DockerErrorKind::Container(msg) => {
            if contains_str(&chars_of(msg.as_str()), "port") {
                v.push(("Port conflict", Some(Paint::RedBold)));
                v.push(("\n\n  ", None));
                v.push((msg.as_str(), None));
                v.push(("\n  ", None));
                v.push(("  Try: occ start --port <different-port>", Some(Paint::Cyan)));
                push_docs(&mut v);
            } else {
                v.push((e.display.as_str(), None));
            }
        },
        DockerErrorKind::Other => {
            v.push((e.display.as_str(), None));
        },
    }
    assert(piece_views(v@) =~= spec_docker_error_pieces(*e));
    render(&v)
}

} // verus!
