//! The Google Drive client: its permission scopes, the file-resource
//! metadata it exchanges, and the request URIs it builds.

use vstd::prelude::*;
use vstd::string::*;
use crate::auth::TokenManager;
use crate::encoding::push_form_encoded;
use crate::encoding::push_str_chars;
use crate::encoding::spec_form_enc;
use crate::encoding::string_from_chars;

verus! {

/// The errors a Drive upload can surface beyond transport failures.
#[derive(Debug, PartialEq, Eq)]
pub enum GoogleDriveError {
    /// The resumable-upload initiation answered 200 but carried no
    /// `Location` header to resume at.
    ResumeUrlNotFound {
        /// The response body, kept for diagnostics.
        response: String,
    },
    /// The resumable-upload initiation answered with a status other
    /// than 200.
    UnexpectedResponse {
        /// The status code received.
        status: u16,
        /// The response body, kept for diagnostics.
        response: String,
    },
}

/// A Drive permission scope, requested when minting a token.
#[derive(PartialEq, Eq, Hash)]
pub enum Scope {
    /// See, edit, create, and delete all of your Google Drive files
    Full,
    /// See, create, and delete its own configuration data in your Google Drive
    Appdata,
    /// See, edit, create, and delete only the specific Google Drive files you use with this app
    File,
    /// View and manage metadata of files in your Google Drive
    Metadata,
    /// See information about your Google Drive files
    MetadataReadonly,
    /// View the photos, videos and albums in your Google Photos
    PhotoReadonly,
    /// See and download all your Google Drive files
    Readonly,
    /// Modify your Google Apps Script scripts' behavior
    Script,
}

impl Scope {
    /// The scope string each variant stands for.
    pub open spec fn spec_as_ref(&self) -> Seq<char> {
        match self {
            Scope::Full => "https://www.googleapis.com/auth/drive"@,
            Scope::Appdata => "https://www.googleapis.com/auth/drive.appdata"@,
            Scope::File => "https://www.googleapis.com/auth/drive.file"@,
            Scope::Metadata => "https://www.googleapis.com/auth/drive.metadata"@,
            Scope::MetadataReadonly => "https://www.googleapis.com/auth/drive.metadata.readonly"@,
            Scope::PhotoReadonly => "https://www.googleapis.com/auth/drive.photos.readonly"@,
            Scope::Readonly => "https://www.googleapis.com/auth/drive.readonly"@,
            Scope::Script => "https://www.googleapis.com/auth/drive.scripts"@,
        }
    }

    /// The scope string to ask the credential source for.
    pub fn as_ref(&self) -> (r: &'static str)
        ensures
            r@ == self.spec_as_ref(),
    {
        match self {
            Scope::Full => "https://www.googleapis.com/auth/drive",
            Scope::Appdata => "https://www.googleapis.com/auth/drive.appdata",
            Scope::File => "https://www.googleapis.com/auth/drive.file",
            Scope::Metadata => "https://www.googleapis.com/auth/drive.metadata",
            Scope::MetadataReadonly => "https://www.googleapis.com/auth/drive.metadata.readonly",
            Scope::PhotoReadonly => "https://www.googleapis.com/auth/drive.photos.readonly",
            Scope::Readonly => "https://www.googleapis.com/auth/drive.readonly",
            Scope::Script => "https://www.googleapis.com/auth/drive.scripts",
        }
    }
}

/// A Drive file resource: the metadata sent with an upload and the resource
/// the API answers with.
#[derive(Debug, Clone, PartialEq)]
pub struct File {
    pub kind: Option<String>,
    pub id: Option<String>,
    pub name: String,
    pub mime_type: String,
    pub description: Option<String>,
    pub created_time: Option<String>,
    pub modified_time: Option<String>,
    pub parents: Vec<String>,
    pub starred: Option<bool>,
    pub viewed_by_me_time: Option<String>,
    pub writers_can_share: Option<String>,
}

/// A path with a leading slash: `p` itself when it already starts with
/// one, `/` prepended otherwise.
pub open spec fn spec_lead_slash(p: Seq<char>) -> Seq<char> {
    if p.len() > 0 && p[0] == '/' {
        p
    } else {
        seq!['/'] + p
    }
}

/// One query pair, form-urlencoded and written `key=value`.
pub open spec fn spec_query_pair(p: (Seq<u8>, Seq<u8>)) -> Seq<char> {
    spec_form_enc(p.0) + seq!['='] + spec_form_enc(p.1)
}

/// The query pairs joined with `&`.
pub open spec fn spec_query_pairs(ps: Seq<(Seq<u8>, Seq<u8>)>) -> Seq<char>
    decreases ps.len(),
{
    if ps.len() == 0 {
        Seq::empty()
    } else if ps.len() == 1 {
        spec_query_pair(ps[0])
    } else {
        spec_query_pair(ps[0]) + seq!['&'] + spec_query_pairs(ps.drop_first())
    }
}

/// The query string a list of pairs appends to a URI: nothing when there
/// are none, `?` and the joined pairs otherwise.
pub open spec fn spec_query_suffix(ps: Seq<(Seq<u8>, Seq<u8>)>) -> Seq<char> {
    if ps.len() == 0 {
        Seq::empty()
    } else {
        seq!['?'] + spec_query_pairs(ps)
    }
}

/// The UTF-8 bytes of a list of query pairs.
pub open spec fn spec_query_views(params: Seq<(String, String)>) -> Seq<(Seq<u8>, Seq<u8>)> {
    params.map_values(
        |p: (String, String)| (vstd::utf8::encode_utf8(p.0@), vstd::utf8::encode_utf8(p.1@)),
    )
}

/// Appending one more pair extends the joined query by `&` and the pair
/// (or is the pair itself, when there were none).
proof fn lemma_query_pairs_snoc(ps: Seq<(Seq<u8>, Seq<u8>)>, p: (Seq<u8>, Seq<u8>))
    ensures
        spec_query_pairs(ps.push(p)) == if ps.len() == 0 {
            spec_query_pair(p)
        } else {
            spec_query_pairs(ps) + seq!['&'] + spec_query_pair(p)
        },
    decreases ps.len(),
{
    if ps.len() == 0 {
        assert(ps.push(p)[0] == p);
        assert(ps.push(p).len() == 1);
    } else {
        assert(ps.push(p).drop_first() =~= ps.drop_first().push(p));
        lemma_query_pairs_snoc(ps.drop_first(), p);
        if ps.len() == 1 {
            assert(spec_query_pairs(ps) == spec_query_pair(ps[0]));
            assert(ps.push(p)[0] == ps[0]);
        } else {
            assert(spec_query_pairs(ps.push(p)) =~= spec_query_pairs(ps) + seq!['&']
                + spec_query_pair(p));
        }
    }
}

/// A Google Drive client: the token cache for the Drive scope.  The HTTP
/// transport that carries its requests lives outside the library.
pub struct Client {
    /// The token cache this client attaches bearer tokens from.
    pub token_manager: TokenManager,
}

impl Client {
    /// A Drive client over an already-initialized token cache.
    pub fn new(token_manager: TokenManager) -> (r: Self)
        ensures
            r.token_manager == token_manager,
    {
        Client { token_manager }
    }

    /// The permission scopes a Drive token is minted for: full access.
    pub fn scopes() -> (r: Vec<String>)
        ensures
            r@.len() == 1,
            r@[0]@ == Scope::Full.spec_as_ref(),
    {
        let mut r: Vec<String> = Vec::new();
        r.push(String::from_str(Scope::Full.as_ref()));
        r
    }

    /// A Drive URI: the endpoint, `path` behind a single leading slash,
    /// and the form-urlencoded query pairs.
    pub fn build_uri(path: &str, params: &Vec<(String, String)>) -> (r: String)
        ensures
            r@ == "https://www.googleapis.com"@ + spec_lead_slash(path@) + spec_query_suffix(
                spec_query_views(params@),
            ),
    {
        let mut out: Vec<char> = Vec::new();
        push_str_chars(&mut out, "https://www.googleapis.com");
        let n = path.unicode_len();
        let starts_with_slash = if n > 0 {
            path.get_char(0) == '/'
        } else {
            false
        };
        if !starts_with_slash {
            out.push('/');
        }
        push_str_chars(&mut out, path);
        let ghost base = "https://www.googleapis.com"@ + spec_lead_slash(path@);
        proof {
            assert(out@ =~= base);
        }

        let mut i: usize = 0;
        while i < params.len()
            invariant
                i <= params.len(),
                out@ == base + spec_query_suffix(spec_query_views(params@.subrange(0, i as int))),
            decreases params.len() - i,
        {
            if i == 0 {
                out.push('?');
            } else {
                out.push('&');
            }
            push_form_encoded(&mut out, params[i].0.as_str());
            out.push('=');
            push_form_encoded(&mut out, params[i].1.as_str());
            proof {
                let prefix = spec_query_views(params@.subrange(0, i as int));
                let pair = (
                    vstd::utf8::encode_utf8(params@[i as int].0@),
                    vstd::utf8::encode_utf8(params@[i as int].1@),
                );
                assert(spec_query_views(params@.subrange(0, i + 1 as int)) =~= prefix.push(pair));
                lemma_query_pairs_snoc(prefix, pair);
                assert(out@ =~= base + spec_query_suffix(prefix.push(pair)));
            }
            i = i + 1;
        }
        proof {
            assert(params@.subrange(0, params@.len() as int) =~= params@);
        }
        string_from_chars(out)
    }
}

impl Default for File {
    /// The empty metadata record: every optional field absent, every
    /// required string empty.
    fn default() -> (r: Self)
        ensures
            r.kind is None,
            r.id is None,
            r.name@ == Seq::<char>::empty(),
            r.mime_type@ == Seq::<char>::empty(),
            r.description is None,
            r.created_time is None,
            r.modified_time is None,
            r.parents@ == Seq::<String>::empty(),
            r.starred is None,
            r.viewed_by_me_time is None,
            r.writers_can_share is None,
    {
        File {
            kind: None,
            id: None,
            name: String::new(),
            mime_type: String::new(),
            description: None,
            created_time: None,
            modified_time: None,
            parents: Vec::new(),
            starred: None,
            viewed_by_me_time: None,
            writers_can_share: None,
        }
    }
}

} // verus!
