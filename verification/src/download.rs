use crate::decimal::{decimal, integer_to_string};
use crate::records::ShareEntry;
use vstd::prelude::*;
use vstd::string::StringExecFns;

verus! {

/// How a download was asked for.
#[derive(Clone, Copy, Debug)]
pub struct DownloadOption {
    pub force_download: bool,
}

/// What to do for a download request.
#[derive(Debug)]
pub enum Download {
    /// There is no such share.
    NotFound,
    /// Serve the file at the path, with ranges and with the time of its last
    /// change, under the given content type in place of its own if there is
    /// one.
    Serve { file_path: String, content_type: Option<String> },
}

/// The content type that makes a browser save a file.
pub open spec fn binary_content_type() -> Seq<char> {
    "application/octet-stream"@
}

/// Decides on a download from what the lookup of the share gave (`None`
/// where the lookup failed): the first share found is served, under the
/// binary content type if the download is forced.
pub fn stream_download(found: Option<Vec<ShareEntry>>, force_download: bool) -> (plan: Download)
    ensures
        match found {
            Some(shares) if shares@.len() > 0 => plan matches Download::Serve {
                file_path,
                content_type,
            } && file_path@ == shares@[0].file_path@ && match content_type {
                Some(forced) => force_download && forced@ == binary_content_type(),
                None => !force_download,
            },
            _ => plan is NotFound,
        },
{
    match found {
        Some(shares) => {
            if shares.len() == 0 {
                return Download::NotFound;
            }
            let file_path = shares[0].file_path.clone();
            let content_type = if force_download {
                Some(String::from_str("application/octet-stream"))
            } else {
                None
            };
            Download::Serve { file_path, content_type }
        },
        None => Download::NotFound,
    }
}

/// What a client is told of a share.
#[derive(Debug)]
pub struct ShareItem {
    pub id: String,
    pub file_name: String,
    pub mime_type: String,
}

/// Whether an item tells of a share: its id as a decimal numeral, its name
/// and its type.
pub open spec fn tells_of(item: ShareItem, share: ShareEntry) -> bool {
    &&& item.id@ == decimal(share.id as int)
    &&& item.file_name@ == share.file_name@
    &&& item.mime_type@ == share.mime_type@
}

/// Lists the shares for a client, in the order given.
pub fn get_shares(shares: &Vec<ShareEntry>) -> (items: Vec<ShareItem>)
    ensures
        items@.len() == shares@.len(),
        forall|i: int| 0 <= i < shares@.len() ==> tells_of(#[trigger] items@[i], shares@[i]),
{
    let mut items: Vec<ShareItem> = Vec::new();
    let mut seen: usize = 0;
    while seen < shares.len()
        invariant
            seen <= shares.len(),
            items@.len() == seen,
            forall|i: int| 0 <= i < seen ==> tells_of(#[trigger] items@[i], shares@[i]),
        decreases shares.len() - seen,
    {
        let share = &shares[seen];
        items.push(
            ShareItem {
                id: integer_to_string(share.id),
                file_name: share.file_name.clone(),
                mime_type: share.mime_type.clone(),
            },
        );
        seen = seen + 1;
    }
    items
}

} // verus!
