//! The content store: the fixed set of named documents, loaded once at
//! startup and immutable thereafter.

use vstd::prelude::*;
use crate::text::str_eq;

verus! {

/// The mathematical contents of a store: one character sequence per text
/// document and the raw bytes of the PDF variant of the resume.
pub struct StoreView {
    pub resume: Seq<char>,
    pub bio: Seq<char>,
    pub projects: Seq<char>,
    pub contact: Seq<char>,
    pub skills: Seq<char>,
    pub work: Seq<char>,
    pub tennis: Seq<char>,
    pub resume_pdf: Seq<u8>,
}

/// The documents a store holds. Built once before the server answers
/// calls; nothing mutates it afterwards.
pub struct ContentStore {
    resume: String,
    bio: String,
    projects: String,
    contact: String,
    skills: String,
    work: String,
    tennis: String,
    resume_pdf: Vec<u8>,
}

impl View for ContentStore {
    type V = StoreView;

    closed spec fn view(&self) -> StoreView {
        StoreView {
            resume: self.resume@,
            bio: self.bio@,
            projects: self.projects@,
            contact: self.contact@,
            skills: self.skills@,
            work: self.work@,
            tennis: self.tennis@,
            resume_pdf: self.resume_pdf@,
        }
    }
}

/// Machine limit: the PDF must be small enough that its base64 encoding
/// cannot overflow a length computation.
pub open spec fn store_wf(sv: StoreView) -> bool {
    sv.resume_pdf.len() < 0x4000_0000
}

/// The number of text documents in every store.
pub open spec fn doc_count() -> int {
    7
}

/// The registered document names, in their declared order.
pub open spec fn doc_name(j: int) -> Seq<char> {
    if j == 0 {
        "resume"@
    } else if j == 1 {
        "bio"@
    } else if j == 2 {
        "projects"@
    } else if j == 3 {
        "contact"@
    } else if j == 4 {
        "skills"@
    } else if j == 5 {
        "work"@
    } else {
        "tennis"@
    }
}

/// The text of the `j`-th document, in the same declared order.
pub open spec fn doc_text(sv: StoreView, j: int) -> Seq<char> {
    if j == 0 {
        sv.resume
    } else if j == 1 {
        sv.bio
    } else if j == 2 {
        sv.projects
    } else if j == 3 {
        sv.contact
    } else if j == 4 {
        sv.skills
    } else if j == 5 {
        sv.work
    } else {
        sv.tennis
    }
}

/// The text a name resolves to, or nothing for an unregistered name.
pub open spec fn lookup_spec(sv: StoreView, name: Seq<char>) -> Option<Seq<char>> {
    if name == "resume"@ {
        Some(sv.resume)
    } else if name == "bio"@ {
        Some(sv.bio)
    } else if name == "contact"@ {
        Some(sv.contact)
    } else if name == "projects"@ {
        Some(sv.projects)
    } else if name == "skills"@ {
        Some(sv.skills)
    } else if name == "work"@ {
        Some(sv.work)
    } else if name == "tennis"@ {
        Some(sv.tennis)
    } else {
        None
    }
}

impl ContentStore {
    /// Build the store from the embedded documents. The caller loads the
    /// assets; a store never changes after this.
    pub fn new(
        resume: String,
        bio: String,
        projects: String,
        contact: String,
        skills: String,
        work: String,
        tennis: String,
        resume_pdf: Vec<u8>,
    ) -> (s: Self)
        requires
            resume_pdf@.len() < 0x4000_0000,
        ensures
            s@ == (StoreView {
                resume: resume@,
                bio: bio@,
                projects: projects@,
                contact: contact@,
                skills: skills@,
                work: work@,
                tennis: tennis@,
                resume_pdf: resume_pdf@,
            }),
            store_wf(s@),
    {
        ContentStore { resume, bio, projects, contact, skills, work, tennis, resume_pdf }
    }

    /// Resolve a document name to its stored text, or `None` for a name
    /// outside the registered set.
    pub fn get_resource(&self, name: &str) -> (r: Option<&String>)
        ensures
            match r {
                Some(t) => lookup_spec(self@, name@) == Some(t@),
                None => lookup_spec(self@, name@) is None,
            },
    {
        if str_eq(name, "resume") {
            Some(&self.resume)
        } else if str_eq(name, "bio") {
            Some(&self.bio)
        } else if str_eq(name, "contact") {
            Some(&self.contact)
        } else if str_eq(name, "projects") {
            Some(&self.projects)
        } else if str_eq(name, "skills") {
            Some(&self.skills)
        } else if str_eq(name, "work") {
            Some(&self.work)
        } else if str_eq(name, "tennis") {
            Some(&self.tennis)
        } else {
            None
        }
    }

    pub(crate) fn resume(&self) -> (r: &String)
        ensures
            r@ == self@.resume,
    {
        &self.resume
    }

    pub(crate) fn bio(&self) -> (r: &String)
        ensures
            r@ == self@.bio,
    {
        &self.bio
    }

    pub(crate) fn projects(&self) -> (r: &String)
        ensures
            r@ == self@.projects,
    {
        &self.projects
    }

    pub(crate) fn contact(&self) -> (r: &String)
        ensures
            r@ == self@.contact,
    {
        &self.contact
    }

    pub(crate) fn skills(&self) -> (r: &String)
        ensures
            r@ == self@.skills,
    {
        &self.skills
    }

    pub(crate) fn work(&self) -> (r: &String)
        ensures
            r@ == self@.work,
    {
        &self.work
    }

    pub(crate) fn tennis(&self) -> (r: &String)
        ensures
            r@ == self@.tennis,
    {
        &self.tennis
    }

    pub(crate) fn resume_pdf(&self) -> (r: &Vec<u8>)
        ensures
            r@ == self@.resume_pdf,
    {
        &self.resume_pdf
    }
}

} // verus!
