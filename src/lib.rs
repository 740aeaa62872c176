//! Decision logic of a small file-copy tool whose source and destination may
//! come from a command-line argument or from the `COPIE_FROM` / `COPIE_TO`
//! environment variables.
//!
//! The library never touches the file system itself. The caller looks up the
//! three optional inputs, probes each path once (missing, regular file or
//! directory), and hands that snapshot to [`resolve::resolve`], which either
//! names the single copy to perform or the reason to refuse. After the copy the
//! caller reports its outcome through [`resolve::finish_copy`], and
//! [`exit::exit_code`] picks the process exit status.
pub mod paths;
pub mod resolve;
pub mod laws;
pub mod exit;
pub mod message;
