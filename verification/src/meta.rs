//! The server's fixed build-time scalars: version strings, the website,
//! and the instructions advertised to a connecting peer.

use vstd::prelude::*;
use vstd::string::*;

verus! {

pub open spec fn mcp_version_spec() -> Seq<char> {
    "1.0.0"@
}

pub open spec fn mcp_website_spec() -> Seq<char> {
    "https://johnlarkin.dev"@
}

pub open spec fn resume_version_spec() -> Seq<char> {
    "2025-01-15"@
}

pub open spec fn instructions_spec() -> Seq<char> {
    "This server provides information about John Larkin: his resume, biography, projects, skills, work history, and collegiate tennis career. Use the offered operations to read documents, search across them, or generate tailored prompts."@
}

/// The server's protocol version string.
pub fn mcp_version() -> (r: String)
    ensures
        r@ == mcp_version_spec(),
{
    String::from_str("1.0.0")
}

/// The website advertised in the metadata record.
pub fn mcp_website() -> (r: String)
    ensures
        r@ == mcp_website_spec(),
{
    String::from_str("https://johnlarkin.dev")
}

/// The date the embedded resume was last updated.
pub fn resume_version() -> (r: String)
    ensures
        r@ == resume_version_spec(),
{
    String::from_str("2025-01-15")
}

/// The instructions string sent to a connecting peer at startup.
pub fn server_instructions() -> (r: String)
    ensures
        r@ == instructions_spec(),
{
    String::from_str(
        "This server provides information about John Larkin: his resume, biography, projects, skills, work history, and collegiate tennis career. Use the offered operations to read documents, search across them, or generate tailored prompts.",
    )
}

} // verus!
