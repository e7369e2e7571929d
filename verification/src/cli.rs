//! The deployment client's decisions: which files of a function project go
//! into the source bundle, what the bundle is called, and where it is
//! posted. The host does the zipping and the upload.

use vstd::prelude::*;
use vstd::string::StringExecFns;

use crate::text;

verus! {

/// The deploy command: a function directory to bundle and the server that
/// receives it.
pub struct DeployCommand {
    /// The path of the function to deploy.
    pub path: String,
    /// The host of the funck server.
    pub host: String,
    /// The port of the funck server.
    pub port: u16,
}

/// What the command line asks for.
pub enum Action {
    Deploy(DeployCommand),
}

/// The parsed command line.
pub struct CLI {
    pub verbose: bool,
    pub action: Action,
}

/// Whether a directory entry belongs in a deployment bundle: only the
/// manifest, the lock file and the source tree are shipped.
pub open spec fn spec_is_deployable(name: Seq<char>) -> bool {
    name == "Cargo.toml"@ || name == "Cargo.lock"@ || name == "src"@
}

/// The deployable entries of a directory listing, in listing order.
pub open spec fn spec_deployable_of(listing: Seq<String>) -> Seq<String>
    decreases listing.len(),
{
    if listing.len() == 0 {
        listing
    } else {
        spec_deployable_of(listing.drop_last()) + (if spec_is_deployable(listing.last()@) {
            seq![listing.last()]
        } else {
            Seq::empty()
        })
    }
}

/// Whether a directory entry belongs in a deployment bundle.
pub fn is_deployable_file(name: &str) -> (r: bool)
    ensures
        r == spec_is_deployable(name@),
{
    let key = name.to_owned();
    key == String::from_str("Cargo.toml") || key == String::from_str("Cargo.lock") || key
        == String::from_str("src")
}

/// Select the deployable entries of a directory listing, in order.
pub fn get_deployable_files(listing: Vec<String>) -> (r: Vec<String>)
    ensures
        r@ == spec_deployable_of(listing@),
{
    let ghost orig = listing@;
    let mut remaining = listing;
    let total = remaining.len();
    let mut r: Vec<String> = Vec::new();
    let mut j: usize = 0;
    while remaining.len() > 0
        invariant
            total == orig.len(),
            j + remaining@.len() == orig.len(),
            remaining@ =~= orig.subrange(j as int, orig.len() as int),
            r@ =~= spec_deployable_of(orig.take(j as int)),
        decreases remaining@.len(),
    {
        let entry = remaining.remove(0);
        proof {
            assert(orig[j as int] == entry);
            assert(orig.take(j + 1).drop_last() =~= orig.take(j as int));
            assert(orig.take(j + 1).last() == entry);
        }
        if is_deployable_file(entry.as_str()) {
            r.push(entry);
        }
        j = j + 1;
    }
    proof {
        assert(orig.take(j as int) =~= orig);
    }
    r
}

/// The name of the bundle built for a function project.
pub fn bundle_name(project_name: &str) -> (r: String)
    ensures
        r@ == project_name@ + ".zip"@,
{
    let mut r = project_name.to_owned();
    r.append(".zip");
    r
}

/// The address a deployment bundle is posted to.
pub fn deploy_url(host: &str, port: u16) -> (r: String)
    ensures
        r@ == "http://"@ + host@ + ":"@ + text::spec_udec(port as nat) + "/_funck_add"@,
{
    let mut r = String::from_str("http://");
    r.append(host);
    r.append(":");
    let digits = text::u64_to_string(port as u64);
    r.append(digits.as_str());
    r.append("/_funck_add");
    r
}

} // verus!
