//! Static-asset collection rules: what the page-source walk does with each
//! entry. Directories are mirrored; a file is published only when its
//! extension is classified and not of the `config` class.

use vstd::prelude::*;
use vstd::string::StringExecFns;
use crate::kvmap::KvMap;
use crate::config::ExtensionFileType;

verus! {

/// What the collection pass does with one walked entry.
pub enum CopyAction {
    /// Mirror a directory at this destination.
    MakeDir(String),
    /// Copy the file to this destination.
    CopyTo(String),
    /// Leave the entry unpublished.
    Skip,
}

/// A file is published exactly when its extension is known to the
/// classification table and its class is not `config`.
pub open spec fn spec_publish(ext: Option<Seq<char>>, filetypes: KvMap<ExtensionFileType>) -> bool {
    match ext {
        Some(e) => match filetypes.spec_get(e) {
            Some(t) => !(t is Config),
            None => false,
        },
        None => false,
    }
}

/// A `config`-classified extension is never published, whatever else the
/// table holds.
pub proof fn lemma_config_never_published(ext: Seq<char>, filetypes: KvMap<ExtensionFileType>)
    requires
        filetypes.spec_get(ext) == Some(ExtensionFileType::Config),
    ensures
        !spec_publish(Some(ext), filetypes),
{
}

/// Decide whether a file with this extension is published.
pub fn publish_decision(ext: Option<&str>, filetypes: &KvMap<ExtensionFileType>) -> (r: bool)
    requires
        filetypes.wf(),
    ensures
        r == spec_publish(
            match ext {
                Some(e) => Some(e@),
                None => None,
            },
            *filetypes,
        ),
{
    match ext {
        Some(e) => match filetypes.get(e) {
            Some(t) => !matches!(t, ExtensionFileType::Config),
            None => false,
        },
        None => false,
    }
}

/// The mirrored destination of a page-source entry, from its path relative
/// to the page-source root.
pub fn page_dest(rel: &str) -> (r: String)
    ensures
        r@ == "static/pages/"@ + rel@,
{
    let mut s: String = "static/pages/".to_owned();
    s.append(rel);
    s
}

/// The destination of a global static entry, from its path relative to the
/// global static root.
pub fn static_dest(rel: &str) -> (r: String)
    ensures
        r@ == "static/"@ + rel@,
{
    let mut s: String = "static/".to_owned();
    s.append(rel);
    s
}

/// The destination of a global script file, copied flat into the script
/// bucket.
pub fn js_dest(name: &str) -> (r: String)
    ensures
        r@ == "static/js/"@ + name@,
{
    let mut s: String = "static/js/".to_owned();
    s.append(name);
    s
}

/// Decide what the collection pass does with one walked page-source entry:
/// a directory is mirrored, a publishable file is copied to the mirrored
/// location, everything else is skipped.
pub fn collect_entry(
    is_dir: bool,
    rel: &str,
    ext: Option<&str>,
    filetypes: &KvMap<ExtensionFileType>,
) -> (r: CopyAction)
    requires
        filetypes.wf(),
    ensures
        is_dir ==> (r matches CopyAction::MakeDir(d) && d@ == "static/pages/"@ + rel@),
        !is_dir && spec_publish(
            match ext {
                Some(e) => Some(e@),
                None => None,
            },
            *filetypes,
        ) ==> (r matches CopyAction::CopyTo(d) && d@ == "static/pages/"@ + rel@),
        !is_dir && !spec_publish(
            match ext {
                Some(e) => Some(e@),
                None => None,
            },
            *filetypes,
        ) ==> r is Skip,
{
    if is_dir {
        CopyAction::MakeDir(page_dest(rel))
    } else if publish_decision(ext, filetypes) {
        CopyAction::CopyTo(page_dest(rel))
    } else {
        CopyAction::Skip
    }
}

} // verus!
