//! The five commands, and what each of them comes to.
//!
//! A command neither prints nor connects. [`Opt::run`] turns it into a
//! [`Job`]: a text to print, or a session to run, with the text that
//! announces it where there is one.

use crate::encoding::encoded;
use crate::identity::{Keypair, PublicKey, SecretKey};
use crate::run::{gen_listen, gen_send, generate, keypair_json, listen, payload, send};
use crate::session::{initiator_of, listener_of, Session, SessionView};
use vstd::prelude::*;

verus! {

/// A command.
#[derive(Clone, Copy, Debug, PartialEq, Eq)]
pub enum Opt {
    /// Listen under the given secret key.
    Listen { private_key: SecretKey },
    /// Send to the peer with the given public key, under the given secret
    /// key.
    Send { remote_public_key: PublicKey, private_key: SecretKey },
    /// Make a key pair and show it.
    Generate,
    /// Make a key pair, announce its public key and listen under it.
    GenListen,
    /// Make a key pair and send under it to the peer with the given public
    /// key.
    GenSend { remote_public_key: PublicKey },
}

/// What a command comes to.
#[derive(Debug, PartialEq, Eq)]
pub enum Job {
    /// Print `text` to the standard output.
    Print { text: String },
    /// Print `announce`, where there is one, to the standard error, then
    /// run `session`.
    Run { announce: Option<String>, session: Session },
}

/// A [`Job`] as contracts see it.
pub ghost enum JobView {
    Print { text: Seq<char> },
    Run { announce: Option<Seq<char>>, session: SessionView },
}

impl View for Job {
    type V = JobView;

    open spec fn view(&self) -> JobView {
        match *self {
            Job::Print { text } => JobView::Print { text: text@ },
            Job::Run { announce, session } => JobView::Run {
                announce: match announce {
                    Some(text) => Some(text@),
                    None => None,
                },
                session: session@,
            },
        }
    }
}

impl Opt {
    /// The secret key that the command brings, if it brings one.
    pub open spec fn own_key(self) -> Option<SecretKey> {
        match self {
            Opt::Listen { private_key } => Some(private_key),
            Opt::Send { private_key, .. } => Some(private_key),
            _ => None,
        }
    }

    /// The key pair that the command runs under, where `local` is the key
    /// pair that its caller has for it: the secret key is the command's own
    /// where it brings one.
    pub open spec fn keys(self, local: Keypair) -> Keypair {
        match self.own_key() {
            Some(secret) => Keypair { public: local.public, secret },
            None => local,
        }
    }

    /// What the command comes to under the key pair `local`.
    pub open spec fn job(self, local: Keypair) -> JobView {
        match self {
            Opt::Listen { .. } => JobView::Run {
                announce: None,
                session: listener_of(self.keys(local)),
            },
            Opt::Send { remote_public_key, .. } => JobView::Run {
                announce: None,
                session: initiator_of(remote_public_key, self.keys(local), payload()),
            },
            Opt::Generate => JobView::Print { text: keypair_json(local) },
            Opt::GenListen => JobView::Run {
                announce: Some(encoded(local.public@)),
                session: listener_of(local),
            },
            Opt::GenSend { remote_public_key } => JobView::Run {
                announce: None,
                session: initiator_of(remote_public_key, local, payload()),
            },
        }
    }

    /// The secret key that the command brings, if it brings one. A command
    /// that brings none runs under a key pair that is made for it.
    pub fn private_key(&self) -> (key: Option<SecretKey>)
        ensures
            key == self.own_key(),
    {
        match self {
            Opt::Listen { private_key } => Some(*private_key),
            Opt::Send { private_key, .. } => Some(*private_key),
            _ => None,
        }
    }

    /// Turns the command into its job.
    ///
    /// `local` is the key pair that the caller has for the command: a fresh
    /// one where the command brings no secret key; else `local.public` is
    /// the public key that belongs to the command's secret key, and
    /// `local.secret` is not looked at.
    pub fn run(self, local: Keypair) -> (job: Job)
        ensures
            job@ == self.job(local),
    {
        match self {
            Opt::Listen { private_key } => Job::Run {
                announce: None,
                session: listen(Keypair { public: local.public, secret: private_key }),
            },
            Opt::Send { remote_public_key, private_key } => Job::Run {
                announce: None,
                session: send(
                    remote_public_key,
                    Keypair { public: local.public, secret: private_key },
                ),
            },
            Opt::Generate => Job::Print { text: generate(local) },
            Opt::GenListen => {
                let (announce, session) = gen_listen(local);
                Job::Run { announce: Some(announce), session }
            },
            Opt::GenSend { remote_public_key } => Job::Run {
                announce: None,
                session: gen_send(remote_public_key, local),
            },
        }
    }
}

} // verus!
