//! The versioned binary envelope of the live connection.
//!
//! Integers are big-endian and fixed-width; a string is its UTF-8 length as a
//! `u32` followed by its bytes. An inbound frame is
//! `version:u32 kind:u8 body`, where kind 1 (`ListDirectory`) has the body
//! `path:string` and nothing may follow it. An outbound frame is
//! `version:u32 kind:u8 body` with kind 1 for a directory listing and kind 2
//! for a general error.

use vstd::prelude::*;
use vstd::utf8::*;
use vstd::string::*;

verus! {

broadcast use {vstd::utf8::group_utf8_lib, vstd::seq::group_seq_axioms};

/// The protocol version this side speaks.
pub const PROTOCOL_VERSION: u32 = 1;

pub const KIND_LIST_DIRECTORY: u8 = 1;
pub const KIND_GENERAL_ERROR: u8 = 2;
pub const RESULT_LAYOUT: u8 = 0;
pub const RESULT_ERROR: u8 = 1;
pub const FILE_TYPE_DIRECTORY: u8 = 0;
pub const FILE_TYPE_NORMAL_FILE: u8 = 1;

/// An inbound request.
pub enum IncomingContent {
    ListDirectory { path: String },
}

/// An inbound envelope.
pub struct BasicIncomingMessage {
    pub version: u32,
    pub content: IncomingContent,
}

/// What an inbound envelope says, as a mathematical value.
pub struct IncomingModel {
    pub version: u32,
    pub path: Seq<char>,
}

impl BasicIncomingMessage {
    pub open spec fn model(&self) -> IncomingModel {
        match self.content {
            IncomingContent::ListDirectory { path } => IncomingModel {
                version: self.version,
                path: path@,
            },
        }
    }
}

#[derive(Debug, Clone, Copy, PartialEq, Eq, Structural)]
pub enum FileType {
    Directory,
    NormalFile,
}

#[derive(Debug, Clone, Copy, PartialEq, Eq, Structural)]
pub struct FileMetadata {
    pub file_type: FileType,
    pub size: u64,
    pub modified_timestamp: u64,
    pub accessed_timestamp: u64,
    pub created_timestamp: u64,
}

/// One entry of a directory listing.
pub struct DirectoryEntry {
    pub path: String,
    pub file_name: String,
    pub metadata: FileMetadata,
}

pub enum ListDirectoryResult {
    Layout(Vec<DirectoryEntry>),
    Error(u64),
}

pub struct ListDirectoryResponse {
    pub directory_path: String,
    pub result: ListDirectoryResult,
}

pub enum OutgoingContent {
    ListDirectory(ListDirectoryResponse),
    GeneralError(u64),
}

/// An outbound envelope.
pub struct BasicOutcomingMessage {
    pub version: u32,
    pub content: OutgoingContent,
}

pub open spec fn u32_bytes(v: u32) -> Seq<u8> {
    seq![
        (v / 0x1000000) as u8,
        ((v / 0x10000) % 0x100) as u8,
        ((v / 0x100) % 0x100) as u8,
        (v % 0x100) as u8,
    ]
}

pub open spec fn u64_bytes(v: u64) -> Seq<u8> {
    seq![
        (v / 0x100000000000000) as u8,
        ((v / 0x1000000000000) % 0x100) as u8,
        ((v / 0x10000000000) % 0x100) as u8,
        ((v / 0x100000000) % 0x100) as u8,
        ((v / 0x1000000) % 0x100) as u8,
        ((v / 0x10000) % 0x100) as u8,
        ((v / 0x100) % 0x100) as u8,
        (v % 0x100) as u8,
    ]
}

/// The big-endian `u32` in the four bytes at `i`.
pub open spec fn be_u32_at(b: Seq<u8>, i: int) -> u32 {
    (b[i] as int * 0x1000000 + b[i + 1] as int * 0x10000 + b[i + 2] as int * 0x100 + b[i
        + 3] as int) as u32
}

pub open spec fn str_fits(s: Seq<char>) -> bool {
    encode_utf8(s).len() <= u32::MAX
}

pub open spec fn string_bytes(s: Seq<char>) -> Seq<u8> {
    u32_bytes(encode_utf8(s).len() as u32) + encode_utf8(s)
}

pub open spec fn incoming_bytes(m: IncomingModel) -> Seq<u8> {
    u32_bytes(m.version) + seq![KIND_LIST_DIRECTORY] + string_bytes(m.path)
}

/// The inbound grammar: a version, the one known kind, and a path string
/// that fills the rest of the frame exactly and is valid UTF-8.
pub open spec fn parse_incoming(b: Seq<u8>) -> Option<IncomingModel> {
    if b.len() < 9 || b[4] != KIND_LIST_DIRECTORY {
        None
    } else {
        let body = b.subrange(9, b.len() as int);
        if body.len() != be_u32_at(b, 5) || !valid_utf8(body) {
            None
        } else {
            Some(IncomingModel { version: be_u32_at(b, 0), path: decode_utf8(body) })
        }
    }
}

pub open spec fn file_type_byte(t: FileType) -> u8 {
    match t {
        FileType::Directory => FILE_TYPE_DIRECTORY,
        FileType::NormalFile => FILE_TYPE_NORMAL_FILE,
    }
}

pub open spec fn metadata_bytes(m: FileMetadata) -> Seq<u8> {
    seq![file_type_byte(m.file_type)] + u64_bytes(m.size) + u64_bytes(m.modified_timestamp)
        + u64_bytes(m.accessed_timestamp) + u64_bytes(m.created_timestamp)
}

pub open spec fn entry_fits(e: DirectoryEntry) -> bool {
    str_fits(e.path@) && str_fits(e.file_name@)
}

pub open spec fn entry_bytes(e: DirectoryEntry) -> Seq<u8> {
    string_bytes(e.path@) + string_bytes(e.file_name@) + metadata_bytes(e.metadata)
}

pub open spec fn entries_bytes(s: Seq<DirectoryEntry>) -> Seq<u8>
    decreases s.len(),
{
    if s.len() == 0 {
        Seq::empty()
    } else {
        entries_bytes(s.drop_last()) + entry_bytes(s.last())
    }
}

pub open spec fn response_fits(r: ListDirectoryResponse) -> bool {
    &&& str_fits(r.directory_path@)
    &&& match r.result {
        ListDirectoryResult::Layout(v) => v@.len() <= u32::MAX && forall|i: int|
            0 <= i < v@.len() ==> entry_fits(#[trigger] v@[i]),
        ListDirectoryResult::Error(_) => true,
    }
}

pub open spec fn response_bytes(r: ListDirectoryResponse) -> Seq<u8> {
    string_bytes(r.directory_path@) + match r.result {
        ListDirectoryResult::Layout(v) => seq![RESULT_LAYOUT] + u32_bytes(v@.len() as u32)
            + entries_bytes(v@),
        ListDirectoryResult::Error(c) => seq![RESULT_ERROR] + u64_bytes(c),
    }
}

pub open spec fn outgoing_fits(m: BasicOutcomingMessage) -> bool {
    match m.content {
        OutgoingContent::ListDirectory(r) => response_fits(r),
        OutgoingContent::GeneralError(_) => true,
    }
}

pub open spec fn outgoing_bytes(m: BasicOutcomingMessage) -> Seq<u8> {
    u32_bytes(m.version) + match m.content {
        OutgoingContent::ListDirectory(r) => seq![KIND_LIST_DIRECTORY] + response_bytes(r),
        OutgoingContent::GeneralError(c) => seq![KIND_GENERAL_ERROR] + u64_bytes(c),
    }
}

proof fn lemma_u32_round_trip(v: u32)
    ensures
        be_u32_at(u32_bytes(v), 0) == v,
{
    let b = u32_bytes(v);
    let x = v as int;
    assert(x == (x / 0x1000000) * 0x1000000 + ((x / 0x10000) % 0x100) * 0x10000 + ((x / 0x100)
        % 0x100) * 0x100 + x % 0x100) by (nonlinear_arith)
        requires
            0 <= x <= u32::MAX,
    ;
}

/// Frames written by `encode_incoming` are read back unchanged: parsing the
/// bytes of any request whose path fits the length field gives that request.
pub proof fn lemma_incoming_round_trip(m: IncomingModel)
    requires
        str_fits(m.path),
    ensures
        parse_incoming(incoming_bytes(m)) == Some(m),
{
    let b = incoming_bytes(m);
    let enc = encode_utf8(m.path);
    let n = enc.len() as u32;
    lemma_u32_round_trip(m.version);
    lemma_u32_round_trip(n);
    assert(b.subrange(0, 4) =~= u32_bytes(m.version));
    assert(b.subrange(5, 9) =~= u32_bytes(n));
    assert(b.subrange(9, b.len() as int) =~= enc);
    assert(be_u32_at(b, 0) == be_u32_at(u32_bytes(m.version), 0));
    assert(be_u32_at(b, 5) == be_u32_at(u32_bytes(n), 0));
}

fn push_u32(out: &mut Vec<u8>, v: u32)
    ensures
        final(out)@ == old(out)@ + u32_bytes(v),
{
    out.push((v / 0x1000000) as u8);
    out.push(((v / 0x10000) % 0x100) as u8);
    out.push(((v / 0x100) % 0x100) as u8);
    out.push((v % 0x100) as u8);
    assert(out@ =~= old(out)@ + u32_bytes(v));
}

fn push_u64(out: &mut Vec<u8>, v: u64)
    ensures
        final(out)@ == old(out)@ + u64_bytes(v),
{
    out.push((v / 0x100000000000000) as u8);
    out.push(((v / 0x1000000000000) % 0x100) as u8);
    out.push(((v / 0x10000000000) % 0x100) as u8);
    out.push(((v / 0x100000000) % 0x100) as u8);
    out.push(((v / 0x1000000) % 0x100) as u8);
    out.push(((v / 0x10000) % 0x100) as u8);
    out.push(((v / 0x100) % 0x100) as u8);
    out.push((v % 0x100) as u8);
    assert(out@ =~= old(out)@ + u64_bytes(v));
}

/// Appends `s` as a length-prefixed string; leaves `out` as it was and
/// answers `false` when its UTF-8 length does not fit a `u32`.
fn push_string(out: &mut Vec<u8>, s: &str) -> (ok: bool)
    ensures
        ok == str_fits(s@),
        ok ==> final(out)@ == old(out)@ + string_bytes(s@),
        !ok ==> final(out)@ == old(out)@,
{
    let bytes = s.as_bytes();
    let n = bytes.len();
    if n > 0xffff_ffff {
        return false;
    }
    push_u32(out, n as u32);
    let ghost start = out@;
    let mut i: usize = 0;
    while i < n
        invariant
            n == bytes@.len(),
            bytes@ == encode_utf8(s@),
            i <= n,
            out@ == start + bytes@.subrange(0, i as int),
        decreases n - i,
    {
        out.push(bytes[i]);
        assert(bytes@.subrange(0, i + 1) =~= bytes@.subrange(0, i as int).push(bytes@[i as int]));
        i = i + 1;
    }
    assert(bytes@.subrange(0, n as int) =~= bytes@);
    assert(out@ =~= old(out)@ + string_bytes(s@));
    true
}

fn push_metadata(out: &mut Vec<u8>, m: &FileMetadata)
    ensures
        final(out)@ == old(out)@ + metadata_bytes(*m),
{
    let ghost start = out@;
    let t = match m.file_type {
        FileType::Directory => FILE_TYPE_DIRECTORY,
        FileType::NormalFile => FILE_TYPE_NORMAL_FILE,
    };
    out.push(t);
    push_u64(out, m.size);
    push_u64(out, m.modified_timestamp);
    push_u64(out, m.accessed_timestamp);
    push_u64(out, m.created_timestamp);
    assert(out@ =~= start + metadata_bytes(*m));
}

fn push_entry(out: &mut Vec<u8>, e: &DirectoryEntry) -> (ok: bool)
    ensures
        ok == entry_fits(*e),
        ok ==> final(out)@ == old(out)@ + entry_bytes(*e),
{
    let ghost start = out@;
    if !push_string(out, e.path.as_str()) {
        return false;
    }
    if !push_string(out, e.file_name.as_str()) {
        return false;
    }
    push_metadata(out, &e.metadata);
    assert(out@ =~= start + entry_bytes(*e));
    true
}

fn push_entries(out: &mut Vec<u8>, v: &Vec<DirectoryEntry>) -> (ok: bool)
    ensures
        ok == forall|j: int| 0 <= j < v@.len() ==> entry_fits(#[trigger] v@[j]),
        ok ==> final(out)@ == old(out)@ + entries_bytes(v@),
{
    let n = v.len();
    let ghost before = out@;
    let mut i: usize = 0;
    while i < n
        invariant
            n == v@.len(),
            i <= n,
            forall|j: int| 0 <= j < i ==> entry_fits(#[trigger] v@[j]),
            out@ == before + entries_bytes(v@.subrange(0, i as int)),
        decreases n - i,
    {
        let ghost prev = out@;
        if !push_entry(out, &v[i]) {
            return false;
        }
        proof {
            let s1 = v@.subrange(0, i + 1);
            assert(s1.drop_last() =~= v@.subrange(0, i as int));
            assert(s1.last() == v@[i as int]);
            assert(entries_bytes(s1) == entries_bytes(v@.subrange(0, i as int)) + entry_bytes(
                v@[i as int],
            ));
            assert(out@ =~= before + entries_bytes(s1));
        }
        i = i + 1;
    }
    assert(v@.subrange(0, n as int) =~= v@);
    true
}

fn push_response(out: &mut Vec<u8>, r: &ListDirectoryResponse) -> (ok: bool)
    ensures
        ok == response_fits(*r),
        ok ==> final(out)@ == old(out)@ + response_bytes(*r),
{
    let ghost start = out@;
    if !push_string(out, r.directory_path.as_str()) {
        return false;
    }
    let ghost mid = out@;
    match &r.result {
        ListDirectoryResult::Layout(v) => {
            out.push(RESULT_LAYOUT);
            let n = v.len();
            if n > 0xffff_ffff {
                return false;
            }
            push_u32(out, n as u32);
            if !push_entries(out, v) {
                return false;
            }
            assert(out@ =~= start + response_bytes(*r));
        },
        ListDirectoryResult::Error(c) => {
            out.push(RESULT_ERROR);
            push_u64(out, *c);
            assert(out@ =~= start + response_bytes(*r));
        },
    }
    true
}

/// Serialises an outbound envelope; `None` exactly when a string or the
/// entry count is too long for its length field.
pub fn encode_outgoing(m: &BasicOutcomingMessage) -> (r: Option<Vec<u8>>)
    ensures
        r is Some <==> outgoing_fits(*m),
        r matches Some(b) ==> b@ == outgoing_bytes(*m),
{
    let mut out: Vec<u8> = Vec::new();
    push_u32(&mut out, m.version);
    match &m.content {
        OutgoingContent::ListDirectory(resp) => {
            out.push(KIND_LIST_DIRECTORY);
            if !push_response(&mut out, resp) {
                return None;
            }
        },
        OutgoingContent::GeneralError(c) => {
            out.push(KIND_GENERAL_ERROR);
            push_u64(&mut out, *c);
        },
    }
    assert(out@ =~= outgoing_bytes(*m));
    Some(out)
}

/// Serialises an inbound envelope (the client's side of the protocol);
/// `None` exactly when the path is too long for its length field.
pub fn encode_incoming(m: &BasicIncomingMessage) -> (r: Option<Vec<u8>>)
    ensures
        r is Some <==> str_fits(m.model().path),
        r matches Some(b) ==> b@ == incoming_bytes(m.model()),
{
    let mut out: Vec<u8> = Vec::new();
    push_u32(&mut out, m.version);
    out.push(KIND_LIST_DIRECTORY);
    match &m.content {
        IncomingContent::ListDirectory { path } => {
            if !push_string(&mut out, path.as_str()) {
                return None;
            }
        },
    }
    assert(out@ =~= incoming_bytes(m.model()));
    Some(out)
}

fn read_u32(b: &Vec<u8>, i: usize) -> (r: u32)
    requires
        i + 4 <= b@.len(),
    ensures
        r == be_u32_at(b@, i as int),
{
    let n = b.len();
    assert(i + 4 <= n);
    let b0 = b[i] as u32;
    let b1 = b[i + 1] as u32;
    let b2 = b[i + 2] as u32;
    let b3 = b[i + 3] as u32;
    b0 * 0x1000000 + b1 * 0x10000 + b2 * 0x100 + b3
}

/// Relies on `String::from_utf8`: it succeeds exactly on valid UTF-8 and
/// the string then holds the decoded characters.
#[verifier::external_body]
fn string_from_utf8(bytes: Vec<u8>) -> (r: Option<String>)
    ensures
        r is Some <==> valid_utf8(bytes@),
        r matches Some(s) ==> s@ == decode_utf8(bytes@),
{
    String::from_utf8(bytes).ok()
}

/// Reads an inbound frame; `None` for a malformed frame or an unknown
/// kind. The version is read, not checked.
pub fn decode_incoming(b: &Vec<u8>) -> (r: Option<BasicIncomingMessage>)
    ensures
        match r {
            Some(m) => parse_incoming(b@) == Some(m.model()),
            None => parse_incoming(b@) is None,
        },
{
    let n = b.len();
    if n < 9 || b[4] != KIND_LIST_DIRECTORY {
        return None;
    }
    let version = read_u32(b, 0);
    let len = read_u32(b, 5);
    if (n - 9) as u64 != len as u64 {
        return None;
    }
    let mut body: Vec<u8> = Vec::new();
    let mut i: usize = 9;
    while i < n
        invariant
            n == b@.len(),
            9 <= i <= n,
            body@ == b@.subrange(9, i as int),
        decreases n - i,
    {
        body.push(b[i]);
        assert(b@.subrange(9, i + 1) =~= b@.subrange(9, i as int).push(b@[i as int]));
        i = i + 1;
    }
    match string_from_utf8(body) {
        Some(path) => Some(
            BasicIncomingMessage { version, content: IncomingContent::ListDirectory { path } },
        ),
        None => None,
    }
}

/// One uploaded file.
pub struct UploadedFile {
    pub file_name: String,
    pub content: Vec<u8>,
}

/// The body of an upload: the user-visible directory, then each file's
/// name and content, until the body ends.
pub struct FileUploadRequest {
    pub dir_path: String,
    pub uploaded_file: Vec<UploadedFile>,
}

pub open spec fn uploaded_view(f: UploadedFile) -> (Seq<char>, Seq<u8>) {
    (f.file_name@, f.content@)
}

/// The length-prefixed bytes that start at `i`.
pub open spec fn field_at(b: Seq<u8>, i: int) -> Option<Seq<u8>> {
    if i < 0 || i + 4 > b.len() {
        None
    } else if i + 4 + be_u32_at(b, i) > b.len() {
        None
    } else {
        Some(b.subrange(i + 4, i + 4 + be_u32_at(b, i)))
    }
}

/// The files encoded from `i` to the end of `b`: each is a UTF-8 name field
/// followed by a content field.
pub open spec fn parse_files(b: Seq<u8>, i: int) -> Option<Seq<(Seq<char>, Seq<u8>)>>
    decreases b.len() - i,
    when 0 <= i <= b.len()
{
    if i == b.len() {
        Some(Seq::empty())
    } else {
        match field_at(b, i) {
            None => None,
            Some(name) => {
                let j = i + 4 + name.len();
                if !valid_utf8(name) {
                    None
                } else {
                    match field_at(b, j) {
                        None => None,
                        Some(c) => match parse_files(b, j + 4 + c.len()) {
                            None => None,
                            Some(rest) => Some(seq![(decode_utf8(name), c)] + rest),
                        },
                    }
                }
            },
        }
    }
}

/// The upload grammar: a UTF-8 directory field, then the files.
pub open spec fn parse_upload(b: Seq<u8>) -> Option<(Seq<char>, Seq<(Seq<char>, Seq<u8>)>)> {
    match field_at(b, 0) {
        None => None,
        Some(d) => if !valid_utf8(d) {
            None
        } else {
            match parse_files(b, 4 + d.len() as int) {
                None => None,
                Some(files) => Some((decode_utf8(d), files)),
            }
        },
    }
}

fn read_field(b: &Vec<u8>, i: usize) -> (r: Option<Vec<u8>>)
    ensures
        match r {
            Some(v) => field_at(b@, i as int) == Some(v@),
            None => field_at(b@, i as int) is None,
        },
{
    let n = b.len();
    if i > n || n - i < 4 {
        return None;
    }
    let len = read_u32(b, i) as usize;
    if n - i - 4 < len {
        return None;
    }
    let end = i + 4 + len;
    let mut out: Vec<u8> = Vec::new();
    let mut k: usize = i + 4;
    while k < end
        invariant
            n == b@.len(),
            i + 4 <= k <= end <= n,
            out@ == b@.subrange(i + 4, k as int),
        decreases end - k,
    {
        out.push(b[k]);
        assert(b@.subrange(i + 4, k + 1) =~= b@.subrange(i + 4, k as int).push(b@[k as int]));
        k = k + 1;
    }
    Some(out)
}

pub open spec fn prepend_files(
    acc: Seq<(Seq<char>, Seq<u8>)>,
    rest: Option<Seq<(Seq<char>, Seq<u8>)>>,
) -> Option<Seq<(Seq<char>, Seq<u8>)>> {
    match rest {
        None => None,
        Some(r) => Some(acc + r),
    }
}

/// Reads an upload body; `None` when it does not follow the grammar.
pub fn decode_upload(b: &Vec<u8>) -> (r: Option<FileUploadRequest>)
    ensures
        match r {
            Some(u) => parse_upload(b@) == Some(
                (u.dir_path@, u.uploaded_file@.map_values(|f| uploaded_view(f))),
            ),
            None => parse_upload(b@) is None,
        },
{
    let n = b.len();
    let dir_bytes = match read_field(b, 0) {
        Some(d) => d,
        None => return None,
    };
    let mut i: usize = 4 + dir_bytes.len();
    let dir_path = match string_from_utf8(dir_bytes) {
        Some(d) => d,
        None => return None,
    };
    let ghost start = i as int;
    assert(parse_upload(b@) == match parse_files(b@, start) {
        None => None,
        Some(f) => Some((dir_path@, f)),
    });
    let mut files: Vec<UploadedFile> = Vec::new();
    while i < n
        invariant
            n == b@.len(),
            start <= i <= n,
            parse_upload(b@) == match parse_files(b@, start) {
                None => None,
                Some(f) => Some((dir_path@, f)),
            },
            parse_files(b@, start) == prepend_files(
                files@.map_values(|f| uploaded_view(f)),
                parse_files(b@, i as int),
            ),
        decreases n - i,
    {
        let ghost acc = files@.map_values(|f| uploaded_view(f));
        let name_bytes = match read_field(b, i) {
            Some(v) => v,
            None => return None,
        };
        let j = i + 4 + name_bytes.len();
        let ghost name_seq = name_bytes@;
        let file_name = match string_from_utf8(name_bytes) {
            Some(s) => s,
            None => {
                assert(field_at(b@, i as int) == Some(name_seq));
                assert(!valid_utf8(name_seq));
                assert(parse_files(b@, i as int) is None);
                return None;
            },
        };
        let content = match read_field(b, j) {
            Some(v) => v,
            None => {
                assert(field_at(b@, i as int) == Some(name_seq));
                assert(j as int == i + 4 + name_seq.len());
                assert(parse_files(b@, i as int) is None);
                return None;
            },
        };
        let next = j + 4 + content.len();
        proof {
            assert(parse_files(b@, i as int) == prepend_files(
                seq![(decode_utf8(name_seq), content@)],
                parse_files(b@, next as int),
            ));
        }
        files.push(UploadedFile { file_name, content });
        assert(files@.map_values(|f| uploaded_view(f)) =~= acc + seq![
            (decode_utf8(name_seq), files@.last().content@),
        ]);
        i = next;
    }
    assert(files@.map_values(|f| uploaded_view(f)) + Seq::empty() =~= files@.map_values(
        |f| uploaded_view(f),
    ));
    Some(FileUploadRequest { dir_path, uploaded_file: files })
}

} // verus!
