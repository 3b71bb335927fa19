//! A duplex byte-stream handle over an OS named pipe.
//!
//! A [`pipe::Pipe`] owns a pipe name and brings up, lazily and independently,
//! a writer connection (client role) and a listener connection (server role)
//! on that one name. The OS transport itself is driven by an unverified
//! runner; every decision the handle makes — when a connection must be
//! established, how transport failures translate into caller-visible results,
//! which handle owns cleanup of the named object — is verified here.

pub mod path_name;
pub mod pipe;
