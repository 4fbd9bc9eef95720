use crate::disposition::{disposition_vars, entries_of, entry_at, split, DispositionVars};
use crate::result::{MultipartError, MultipartResult};
use crate::text::{chars_of, string_of};
use vstd::prelude::*;

verus! {

/// Whether a header value may hold byte `b` and still read as text:
/// visible ASCII or a tab.
pub open spec fn is_visible(b: u8) -> bool {
    (32 <= b && b < 127) || b == 9
}

/// The text of a header value: its bytes as characters, if all of them are
/// visible.
pub open spec fn header_text(v: Seq<u8>) -> Option<Seq<char>> {
    if forall|i: int| 0 <= i < v.len() ==> is_visible(#[trigger] v[i]) {
        Some(v.map_values(|b: u8| b as char))
    } else {
        None
    }
}

/// The headers of one part of a multipart body that describe its file: the
/// raw bytes of `content-type` and of `content-disposition`, each where
/// present.
#[derive(Debug, Clone)]
pub struct PartHeaders {
    /// The bytes of `content-type`, where present.
    pub content_type: Option<Vec<u8>>,
    /// The bytes of `content-disposition`, where present.
    pub content_disposition: Option<Vec<u8>>,
}

/// The text of an optional header value.
pub open spec fn text_of(v: Option<Vec<u8>>) -> Option<Seq<char>> {
    match v {
        Some(b) => header_text(b@),
        None => None,
    }
}

/// The parameters of the part's `content-disposition`, where its
/// `content-type` and `content-disposition` read as text and the latter
/// names both the field (`name`) and the file (`filename`).
pub open spec fn upload_vars(h: PartHeaders) -> Option<Map<Seq<char>, Seq<char>>> {
    match (text_of(h.content_type), text_of(h.content_disposition)) {
        (Some(t), Some(d)) => {
            let vars = disposition_vars(d);
            if vars.contains_key(seq!['n', 'a', 'm', 'e']) && vars.contains_key(
                seq!['f', 'i', 'l', 'e', 'n', 'a', 'm', 'e'],
            ) {
                Some(vars)
            } else {
                None
            }
        },
        _ => None,
    }
}

/// `info` is what `create` reads from the part headers `h`.
pub open spec fn describes(info: FileInfo, h: PartHeaders) -> bool {
    let vars = upload_vars(h)->0;
    &&& upload_vars(h) is Some
    &&& Some(info.content_type@) == text_of(h.content_type)
    &&& info.field@ == vars[seq!['n', 'a', 'm', 'e']]
    &&& info.name@ == vars[seq!['f', 'i', 'l', 'e', 'n', 'a', 'm', 'e']]
    &&& info.size == 0
    &&& info.extension matches Some(e) && e@ == extension_of(info.name@)
    &&& info.content_disposition_vars@ == vars
}

/// The extension of a file name: what follows its last `.`, or the whole
/// name where it has none.
pub open spec fn extension_of(name: Seq<char>) -> Seq<char> {
    split(name, '.').last()
}

/// The text of a header value, if all its bytes are visible.
pub fn header_str(v: &Vec<u8>) -> (r: Option<String>)
    ensures
        match r {
            Some(s) => header_text(v@) == Some(s@),
            None => header_text(v@) is None,
        },
{
    let mut s = String::new();
    let mut i: usize = 0;
    while i < v.len()
        invariant
            i <= v@.len(),
            forall|j: int| 0 <= j < i ==> is_visible(#[trigger] v@[j]),
            s@ == v@.take(i as int).map_values(|b: u8| b as char),
        decreases v@.len() - i,
    {
        let b = v[i];
        if !((32 <= b && b < 127) || b == 9) {
            return None;
        }
        crate::text::push_char(&mut s, b as char);
        assert(s@ =~= v@.take(i + 1).map_values(|b: u8| b as char));
        i = i + 1;
    }
    assert(v@.take(i as int) =~= v@);
    Some(s)
}

/// The extension of the file name `name`.
pub fn extension(name: &str) -> (r: String)
    ensures
        r@ == extension_of(name@),
{
    let cs = chars_of(name);
    let mut start: usize = 0;
    let mut i: usize = 0;
    assert(cs@.take(0) =~= Seq::<char>::empty());
    assert(cs@.subrange(0, 0) =~= Seq::<char>::empty());
    while i < cs.len()
        invariant
            start <= i <= cs@.len(),
            split(cs@.take(i as int), '.').len() >= 1,
            split(cs@.take(i as int), '.').last() == cs@.subrange(start as int, i as int),
        decreases cs@.len() - i,
    {
        assert(cs@.take(i + 1).drop_last() =~= cs@.take(i as int));
        if cs[i] == '.' {
            start = i + 1;
            assert(cs@.subrange(start as int, i + 1) =~= Seq::<char>::empty());
        } else {
            assert(cs@.subrange(start as int, i + 1) =~= cs@.subrange(start as int, i as int).push(
                cs@[i as int],
            ));
        }
        i = i + 1;
    }
    assert(cs@.take(i as int) =~= cs@);
    string_of(&cs, start, i)
}

/// What the headers of an uploaded part say of its file.
#[derive(Debug, Clone)]
pub struct FileInfo {
    /// The file name that the client gave (`filename`).
    pub name: String,
    /// The form field that carried the file (`name`).
    pub field: String,
    /// The number of bytes received.
    pub size: usize,
    /// The part's `content-type`.
    pub content_type: String,
    /// What follows the last `.` of the file name.
    pub extension: Option<String>,
    /// Every parameter of the part's `content-disposition`.
    pub content_disposition_vars: DispositionVars,
}

impl Default for FileInfo {
    fn default() -> (r: FileInfo)
        ensures
            r.name@.len() == 0,
            r.field@.len() == 0,
            r.size == 0,
            r.content_type@.len() == 0,
            r.extension is None,
            r.content_disposition_vars@ == Map::<Seq<char>, Seq<char>>::empty(),
    {
        FileInfo {
            name: String::new(),
            field: String::new(),
            size: 0,
            content_type: String::new(),
            extension: None,
            content_disposition_vars: DispositionVars::new(),
        }
    }
}

impl FileInfo {
    /// Reads the file's metadata from the headers of its part. Fails with
    /// `InvalidContentType` where `content-type` is missing or not text, and
    /// else with `InvalidContentDisposition` where `content-disposition` is
    /// missing, not text, or lacks `name` or `filename`.
    pub fn create(headers: &PartHeaders) -> (r: MultipartResult<FileInfo>)
        ensures
            (r matches Err(MultipartError::InvalidContentType)) <==> text_of(
                headers.content_type,
            ) is None,
            r is Ok <==> upload_vars(*headers) is Some,
            r is Err ==> (r matches Err(MultipartError::InvalidContentType)) || (r matches Err(
                MultipartError::InvalidContentDisposition,
            )),
            r is Ok ==> describes(r->Ok_0, *headers),
    {
        let content_type = Self::get_content_type(headers)?;
        let content_disposition = Self::get_content_disposition(headers)?;
        let variables = Self::parse_content_disposition(content_disposition.as_str());
        proof {
            reveal_strlit("name");
            reveal_strlit("filename");
            assert("name"@ =~= seq!['n', 'a', 'm', 'e']);
            assert("filename"@ =~= seq!['f', 'i', 'l', 'e', 'n', 'a', 'm', 'e']);
        }
        let field = match variables.get("name") {
            Some(f) => f.clone(),
            None => return Err(MultipartError::InvalidContentDisposition),
        };
        let name = match variables.get("filename") {
            Some(n) => n.clone(),
            None => return Err(MultipartError::InvalidContentDisposition),
        };
        let ext = extension(name.as_str());
        Ok(FileInfo {
            name,
            field,
            size: 0,
            content_type,
            extension: Some(ext),
            content_disposition_vars: variables,
        })
    }

    /// The parameters of the `content-disposition` value `s`: each
    /// `;`-separated piece that holds a `=` gives one, the later one of a
    /// key winning.
    pub fn parse_content_disposition(s: &str) -> (r: DispositionVars)
        ensures
            r@ == disposition_vars(s@),
    {
        let cs = chars_of(s);
        let mut vars = DispositionVars::new();
        let ghost mut done: Seq<Seq<char>> = Seq::empty();
        let mut start: usize = 0;
        let mut i: usize = 0;
        assert(cs@.take(0) =~= Seq::<char>::empty());
        assert(cs@.subrange(0, 0) =~= Seq::<char>::empty());
        while i < cs.len()
            invariant
                start <= i <= cs@.len(),
                split(cs@.take(i as int), ';') == done.push(cs@.subrange(start as int, i as int)),
                vars.pairs() == entries_of(done),
            decreases cs@.len() - i,
        {
            assert(cs@.take(i + 1).drop_last() =~= cs@.take(i as int));
            if cs[i] == ';' {
                let e = entry_at(&cs, start, i);
                proof {
                    let piece = cs@.subrange(start as int, i as int);
                    assert(done.push(piece).drop_last() =~= done);
                    done = done.push(piece);
                }
                if let Some(p) = e {
                    vars.insert(p.0, p.1);
                }
                start = i + 1;
                assert(cs@.subrange(start as int, i + 1) =~= Seq::<char>::empty());
            } else {
                assert(cs@.subrange(start as int, i + 1) =~= cs@.subrange(start as int, i as int).push(
                    cs@[i as int],
                ));
                assert(done.push(cs@.subrange(start as int, i as int)).update(
                    done.len() as int,
                    cs@.subrange(start as int, i + 1),
                ) =~= done.push(cs@.subrange(start as int, i + 1)));
            }
            i = i + 1;
        }
        let e = entry_at(&cs, start, cs.len());
        proof {
            let piece = cs@.subrange(start as int, i as int);
            assert(done.push(piece).drop_last() =~= done);
            assert(cs@.take(i as int) =~= cs@);
            done = done.push(piece);
        }
        if let Some(p) = e {
            vars.insert(p.0, p.1);
        }
        vars
    }

    /// The text of the `content-type` header; `InvalidContentType` where it
    /// is missing or not text.
    fn get_content_type(headers: &PartHeaders) -> (r: MultipartResult<String>)
        ensures
            match r {
                Ok(t) => text_of(headers.content_type) == Some(t@),
                Err(e) => text_of(headers.content_type) is None
                    && e == MultipartError::InvalidContentType,
            },
    {
        match &headers.content_type {
            None => Err(MultipartError::InvalidContentType),
            Some(v) => match header_str(v) {
                Some(t) => Ok(t),
                None => Err(MultipartError::InvalidContentType),
            },
        }
    }

    /// The text of the `content-disposition` header;
    /// `InvalidContentDisposition` where it is missing or not text.
    fn get_content_disposition(headers: &PartHeaders) -> (r: MultipartResult<String>)
        ensures
            match r {
                Ok(t) => text_of(headers.content_disposition) == Some(t@),
                Err(e) => text_of(headers.content_disposition) is None
                    && e == MultipartError::InvalidContentDisposition,
            },
    {
        match &headers.content_disposition {
            None => Err(MultipartError::InvalidContentDisposition),
            Some(v) => match header_str(v) {
                Some(t) => Ok(t),
                None => Err(MultipartError::InvalidContentDisposition),
            },
        }
    }
}

} // verus!
