//! The scope-tree builder and inheritance resolver: it walks the
//! decoded tag stream of an `aeabi` subsection, enforces the
//! File/Section/Symbol nesting rules and byte-extent containment,
//! attributes every non-scope tag to the innermost open scope, and
//! finally runs one top-down pass that lets entirely empty child
//! scopes inherit their parent's resolved attribute values.

use vstd::prelude::*;

use crate::attrs::{Attributes, AttrsM};
use crate::error::{PublicAttrsError, PublicAttrsErrorM, ReadError, TagError};
use crate::read::bytes_eq;
use crate::tag::{spec_read_tag, Tag, TagM};
use crate::Endian;

verus! {

/// The resolved attribute tree of one `aeabi` subsection: the
/// file-scope attributes and one group per distinct section index
/// list. Equal index lists denote the same group, so repeated scope
/// openings accumulate into one entry.
pub struct File {
    pub attributes: Attributes,
    /// One group per distinct list of section indices.
    pub sections: Vec<SectionGroup>,
}

/// The attributes of one group of sections, and one group per distinct
/// symbol index list nested inside it.
pub struct SectionGroup {
    /// The raw, undecoded index-list bytes that key this group.
    pub indices: Vec<u8>,
    pub attributes: Attributes,
    /// One group per distinct list of symbol indices.
    pub symbols: Vec<SymbolGroup>,
}

/// The attributes of one group of symbols.
pub struct SymbolGroup {
    /// The raw, undecoded index-list bytes that key this group.
    pub indices: Vec<u8>,
    pub attributes: Attributes,
}

/// Mathematical model of the resolved tree.
#[verifier::ext_equal]
pub struct FileM {
    pub attributes: AttrsM,
    pub sections: Seq<SectionM>,
}

/// Mathematical model of one section group.
#[verifier::ext_equal]
pub struct SectionM {
    pub indices: Seq<u8>,
    pub attributes: AttrsM,
    pub symbols: Seq<SymbolM>,
}

/// Mathematical model of one symbol group.
#[verifier::ext_equal]
pub struct SymbolM {
    pub indices: Seq<u8>,
    pub attributes: AttrsM,
}

/// The models of a sequence of section groups, element-wise.
pub open spec fn sections_view(s: Seq<SectionGroup>) -> Seq<SectionM> {
    Seq::new(s.len(), |i: int| s[i]@)
}

/// The models of a sequence of symbol groups, element-wise.
pub open spec fn symbols_view(s: Seq<SymbolGroup>) -> Seq<SymbolM> {
    Seq::new(s.len(), |i: int| s[i]@)
}

impl View for SymbolGroup {
    type V = SymbolM;

    open spec fn view(&self) -> SymbolM {
        SymbolM { indices: self.indices@, attributes: self.attributes@ }
    }
}

impl View for SectionGroup {
    type V = SectionM;

    open spec fn view(&self) -> SectionM {
        SectionM {
            indices: self.indices@,
            attributes: self.attributes@,
            symbols: symbols_view(self.symbols@),
        }
    }
}

impl View for File {
    type V = FileM;

    open spec fn view(&self) -> FileM {
        FileM { attributes: self.attributes@, sections: sections_view(self.sections@) }
    }
}

impl FileM {
    /// The tree with file-scope attributes all unset and no groups.
    pub open spec fn spec_empty() -> FileM {
        FileM { attributes: AttrsM::spec_unset(), sections: Seq::empty() }
    }
}

/// The index at or after `i` of the first section group keyed by
/// `key`, or -1 if there is none.
pub open spec fn spec_find_section_from(ss: Seq<SectionM>, key: Seq<u8>, i: int) -> int
    decreases ss.len() - i,
{
    if !(0 <= i < ss.len()) {
        -1
    } else if ss[i].indices == key {
        i
    } else {
        spec_find_section_from(ss, key, i + 1)
    }
}

/// The index of the section group keyed by `key`, or -1.
pub open spec fn spec_find_section(ss: Seq<SectionM>, key: Seq<u8>) -> int {
    spec_find_section_from(ss, key, 0)
}

/// The index at or after `i` of the first symbol group keyed by
/// `key`, or -1 if there is none.
pub open spec fn spec_find_symbol_from(ys: Seq<SymbolM>, key: Seq<u8>, i: int) -> int
    decreases ys.len() - i,
{
    if !(0 <= i < ys.len()) {
        -1
    } else if ys[i].indices == key {
        i
    } else {
        spec_find_symbol_from(ys, key, i + 1)
    }
}

/// The index of the symbol group keyed by `key`, or -1.
pub open spec fn spec_find_symbol(ys: Seq<SymbolM>, key: Seq<u8>) -> int {
    spec_find_symbol_from(ys, key, 0)
}

/// The section groups after opening or resuming the group keyed by
/// `key`, together with its index.
pub open spec fn spec_upsert_section(ss: Seq<SectionM>, key: Seq<u8>) -> (Seq<SectionM>, int) {
    let i = spec_find_section(ss, key);
    if i >= 0 {
        (ss, i)
    } else {
        (
            ss.push(
                SectionM { indices: key, attributes: AttrsM::spec_unset(), symbols: Seq::empty() },
            ),
            ss.len() as int,
        )
    }
}

/// The symbol groups after opening or resuming the group keyed by
/// `key`, together with its index.
pub open spec fn spec_upsert_symbol(ys: Seq<SymbolM>, key: Seq<u8>) -> (Seq<SymbolM>, int) {
    let i = spec_find_symbol(ys, key);
    if i >= 0 {
        (ys, i)
    } else {
        (ys.push(SymbolM { indices: key, attributes: AttrsM::spec_unset() }), ys.len() as int)
    }
}

/// The scope a tag is attributed to: the file, the section group at
/// index `si`, or the symbol group at index `yi` inside it. Each open
/// scope carries the stream offset where its declared extent ends.
pub enum ScopeM {
    File,
    Section { si: int, end: int },
    Symbol { si: int, yi: int, sec_end: int, end: int },
}

/// The scope after implicitly closing every scope whose recorded end
/// offset the next tag's offset has reached or passed; closing
/// cascades outward.
pub open spec fn spec_close_expired(scope: ScopeM, off: int) -> ScopeM {
    let s1 = match scope {
        ScopeM::Symbol { si, yi, sec_end, end } => if off >= end {
            ScopeM::Section { si, end: sec_end }
        } else {
            scope
        },
        _ => scope,
    };
    match s1 {
        ScopeM::Section { si, end } => if off >= end {
            ScopeM::File
        } else {
            s1
        },
        _ => s1,
    }
}

/// The tree after attributing a non-scope tag to the active scope.
pub open spec fn spec_set_attr(f: FileM, scope: ScopeM, t: TagM) -> FileM {
    match scope {
        ScopeM::File => FileM { attributes: f.attributes.spec_apply_tag(t), ..f },
        ScopeM::Section { si, .. } => {
            let s = f.sections[si];
            FileM {
                sections: f.sections.update(
                    si,
                    SectionM { attributes: s.attributes.spec_apply_tag(t), ..s },
                ),
                ..f
            }
        },
        ScopeM::Symbol { si, yi, .. } => {
            let s = f.sections[si];
            let y = s.symbols[yi];
            FileM {
                sections: f.sections.update(
                    si,
                    SectionM {
                        symbols: s.symbols.update(
                            yi,
                            SymbolM { attributes: y.attributes.spec_apply_tag(t), ..y },
                        ),
                        ..s
                    },
                ),
                ..f
            }
        },
    }
}

/// One step of the walk: close expired scopes at the tag's offset,
/// then either open or resume a scope under the nesting and extent
/// rules, or attribute the tag to the active scope. `limit` is the
/// file scope's extent, which equals the payload length.
pub open spec fn spec_step(f: FileM, scope: ScopeM, t: TagM, off: int, limit: int) -> Result<
    (FileM, ScopeM),
    PublicAttrsErrorM,
> {
    let scope1 = spec_close_expired(scope, off);
    match t {
        TagM::File { .. } => Err(PublicAttrsErrorM::DuplicateFileTag),
        TagM::Section { size, sections } => if scope1 is File {
            if off + size > limit {
                Err(PublicAttrsErrorM::ScopeEndsBeforeParent)
            } else {
                let (ss, si) = spec_upsert_section(f.sections, sections);
                Ok((FileM { sections: ss, ..f }, ScopeM::Section { si, end: off + size }))
            }
        } else {
            Err(PublicAttrsErrorM::NotFileScope)
        },
        TagM::Symbol { size, symbols } => match scope1 {
            ScopeM::Section { si, end: sec_end } => if off + size > sec_end {
                Err(PublicAttrsErrorM::ScopeEndsBeforeParent)
            } else {
                let s = f.sections[si];
                let (ys, yi) = spec_upsert_symbol(s.symbols, symbols);
                Ok(
                    (
                        FileM { sections: f.sections.update(si, SectionM { symbols: ys, ..s }), ..f },
                        ScopeM::Symbol { si, yi, sec_end, end: off + size },
                    ),
                )
            },
            _ => Err(PublicAttrsErrorM::NotSectionScope),
        },
        _ => Ok((spec_set_attr(f, scope1, t), scope1)),
    }
}

/// The walk over the tag stream from `pos` to the end of the payload:
/// a clean end-of-data exactly at a tag boundary ends the walk; any
/// tag error or structural violation aborts it.
pub open spec fn spec_walk(data: Seq<u8>, e: Endian, pos: int, f: FileM, scope: ScopeM) -> Result<
    FileM,
    PublicAttrsErrorM,
>
    decreases data.len() - pos,
{
    if pos >= data.len() {
        Ok(f)
    } else {
        match spec_read_tag(data, pos, e) {
            Err(te) => Err(PublicAttrsErrorM::Tag(te)),
            Ok((t, p2)) => if !(pos < p2 <= data.len()) {
                Err(PublicAttrsErrorM::Tag(TagError::Read(ReadError::Eof)))
            } else {
                match spec_step(f, scope, t, pos, data.len() as int) {
                    Err(err) => Err(err),
                    Ok((f2, s2)) => spec_walk(data, e, p2, f2, s2),
                }
            },
        }
    }
}

/// One symbol group after resolution under its section's resolved set:
/// an entirely empty set inherits it, unless the section's
/// no-further-defaults flag is set.
pub open spec fn spec_resolve_symbol(sa: AttrsM, y: SymbolM) -> SymbolM {
    SymbolM {
        indices: y.indices,
        attributes: if y.attributes.spec_is_empty() && !sa.no_defaults {
            y.attributes.spec_inherit(sa)
        } else {
            y.attributes
        },
    }
}

/// One section group after resolution under the file scope's set: an
/// entirely empty set inherits it, unless the file's
/// no-further-defaults flag is set; its symbol groups then resolve
/// under the section's resolved set.
pub open spec fn spec_resolve_section(fa: AttrsM, s: SectionM) -> SectionM {
    let sa = if s.attributes.spec_is_empty() && !fa.no_defaults {
        s.attributes.spec_inherit(fa)
    } else {
        s.attributes
    };
    SectionM {
        indices: s.indices,
        attributes: sa,
        symbols: Seq::new(s.symbols.len(), |j: int| spec_resolve_symbol(sa, s.symbols[j])),
    }
}

/// The tree after the single top-down resolution pass.
pub open spec fn spec_resolve(f: FileM) -> FileM {
    FileM {
        attributes: f.attributes,
        sections: Seq::new(
            f.sections.len(),
            |i: int| spec_resolve_section(f.attributes, f.sections[i]),
        ),
    }
}

/// The resolved tree an `aeabi` payload decodes to, or the error that
/// aborts the decode: the payload must hold at least one tag, the
/// first tag must be a File tag, and its declared size must equal the
/// payload length exactly.
pub open spec fn spec_build_attributes(data: Seq<u8>, e: Endian) -> Result<
    FileM,
    PublicAttrsErrorM,
> {
    if data.len() == 0 {
        Err(PublicAttrsErrorM::NoTags)
    } else {
        match spec_read_tag(data, 0, e) {
            Err(te) => Err(PublicAttrsErrorM::Tag(te)),
            Ok((t, p1)) => match t {
                TagM::File { size } => if size != data.len() {
                    Err(PublicAttrsErrorM::ScopeEndsBeforeParent)
                } else {
                    match spec_walk(data, e, p1, FileM::spec_empty(), ScopeM::File) {
                        Ok(f) => Ok(spec_resolve(f)),
                        Err(err) => Err(err),
                    }
                },
                _ => Err(PublicAttrsErrorM::NoFileTag),
            },
        }
    }
}

/// The section group keyed by the given raw index-list bytes, if any.
pub open spec fn spec_lookup_section(f: FileM, key: Seq<u8>) -> Option<SectionM> {
    let i = spec_find_section(f.sections, key);
    if i >= 0 {
        Some(f.sections[i])
    } else {
        None
    }
}

/// The symbol group keyed by the given raw index-list bytes, if any.
pub open spec fn spec_lookup_symbol(s: SectionM, key: Seq<u8>) -> Option<SymbolM> {
    let i = spec_find_symbol(s.symbols, key);
    if i >= 0 {
        Some(s.symbols[i])
    } else {
        None
    }
}

impl File {
    /// The section group keyed by the given raw index-list bytes.
    pub fn section(&self, indices: &[u8]) -> (r: Option<&SectionGroup>)
        ensures
            match r {
                Some(g) => spec_lookup_section(self@, indices@) == Some(g@),
                None => spec_lookup_section(self@, indices@) is None,
            },
    {
        match find_section(&self.sections, indices) {
            Some(i) => Some(&self.sections[i]),
            None => None,
        }
    }
}

impl SectionGroup {
    /// The symbol group keyed by the given raw index-list bytes.
    pub fn symbol(&self, indices: &[u8]) -> (r: Option<&SymbolGroup>)
        ensures
            match r {
                Some(g) => spec_lookup_symbol(self@, indices@) == Some(g@),
                None => spec_lookup_symbol(self@, indices@) is None,
            },
    {
        match find_symbol(&self.symbols, indices) {
            Some(i) => Some(&self.symbols[i]),
            None => None,
        }
    }
}

/// Scan for the section group keyed by `key`.
fn find_section(sections: &Vec<SectionGroup>, key: &[u8]) -> (r: Option<usize>)
    ensures
        match r {
            Some(i) => spec_find_section(sections_view(sections@), key@) == i as int && (i as int)
                < sections@.len(),
            None => spec_find_section(sections_view(sections@), key@) == -1,
        },
{
    let ghost sv = sections_view(sections@);
    let mut i: usize = 0;
    while i < sections.len()
        invariant
            i <= sections@.len(),
            sv == sections_view(sections@),
            spec_find_section_from(sv, key@, 0) == spec_find_section_from(sv, key@, i as int),
        decreases sections@.len() - i,
    {
        if bytes_eq(sections[i].indices.as_slice(), key) {
            return Some(i);
        }
        i = i + 1;
    }
    None
}

/// Scan for the symbol group keyed by `key`.
fn find_symbol(symbols: &Vec<SymbolGroup>, key: &[u8]) -> (r: Option<usize>)
    ensures
        match r {
            Some(i) => spec_find_symbol(symbols_view(symbols@), key@) == i as int && (i as int)
                < symbols@.len(),
            None => spec_find_symbol(symbols_view(symbols@), key@) == -1,
        },
{
    let ghost sv = symbols_view(symbols@);
    let mut i: usize = 0;
    while i < symbols.len()
        invariant
            i <= symbols@.len(),
            sv == symbols_view(symbols@),
            spec_find_symbol_from(sv, key@, 0) == spec_find_symbol_from(sv, key@, i as int),
        decreases symbols@.len() - i,
    {
        if bytes_eq(symbols[i].indices.as_slice(), key) {
            return Some(i);
        }
        i = i + 1;
    }
    None
}

/// Open or resume the section group keyed by `key`.
fn upsert_section(sections: &mut Vec<SectionGroup>, key: Vec<u8>) -> (si: usize)
    ensures
        sections_view(final(sections)@) == spec_upsert_section(
            sections_view(old(sections)@),
            key@,
        ).0,
        si as int == spec_upsert_section(sections_view(old(sections)@), key@).1,
        (si as int) < final(sections)@.len(),
{
    match find_section(sections, key.as_slice()) {
        Some(i) => i,
        None => {
            let si = sections.len();
            sections.push(
                SectionGroup { indices: key, attributes: Attributes::new(), symbols: Vec::new() },
            );
            proof {
                assert(sections_view(sections@) =~~= spec_upsert_section(
                    sections_view(old(sections)@),
                    key@,
                ).0);
            }
            si
        },
    }
}

/// Open or resume the symbol group keyed by `key`.
fn upsert_symbol(symbols: &mut Vec<SymbolGroup>, key: Vec<u8>) -> (yi: usize)
    ensures
        symbols_view(final(symbols)@) == spec_upsert_symbol(symbols_view(old(symbols)@), key@).0,
        yi as int == spec_upsert_symbol(symbols_view(old(symbols)@), key@).1,
        (yi as int) < final(symbols)@.len(),
{
    match find_symbol(symbols, key.as_slice()) {
        Some(i) => i,
        None => {
            let yi = symbols.len();
            symbols.push(SymbolGroup { indices: key, attributes: Attributes::new() });
            proof {
                assert(symbols_view(symbols@) =~~= spec_upsert_symbol(
                    symbols_view(old(symbols)@),
                    key@,
                ).0);
            }
            yi
        },
    }
}


/// The models of a section-group sequence after one element is
/// replaced.
proof fn lemma_sections_view_update(s: Seq<SectionGroup>, i: int, g: SectionGroup)
    requires
        0 <= i < s.len(),
    ensures
        sections_view(s.update(i, g)) == sections_view(s).update(i, g@),
{
    assert(sections_view(s.update(i, g)) =~= sections_view(s).update(i, g@));
}

/// The models of a symbol-group sequence after one element is
/// replaced.
proof fn lemma_symbols_view_update(s: Seq<SymbolGroup>, i: int, g: SymbolGroup)
    requires
        0 <= i < s.len(),
    ensures
        symbols_view(s.update(i, g)) == symbols_view(s).update(i, g@),
{
    assert(symbols_view(s.update(i, g)) =~= symbols_view(s).update(i, g@));
}

/// The aggregation state during the walk: which scope the next
/// non-scope tag is attributed to, with each open scope's group index
/// and recorded end offset.
#[derive(Clone, Copy)]
enum ScopeSt {
    File,
    Section { si: usize, end: u64 },
    Symbol { si: usize, yi: usize, sec_end: u64, end: u64 },
}

/// The model of the aggregation state.
spec fn scope_view(s: ScopeSt) -> ScopeM {
    match s {
        ScopeSt::File => ScopeM::File,
        ScopeSt::Section { si, end } => ScopeM::Section { si: si as int, end: end as int },
        ScopeSt::Symbol { si, yi, sec_end, end } => ScopeM::Symbol {
            si: si as int,
            yi: yi as int,
            sec_end: sec_end as int,
            end: end as int,
        },
    }
}

/// The scope's group indices lie inside the tree.
spec fn scope_wf(f: FileM, s: ScopeM) -> bool {
    match s {
        ScopeM::File => true,
        ScopeM::Section { si, .. } => 0 <= si < f.sections.len(),
        ScopeM::Symbol { si, yi, .. } => 0 <= si < f.sections.len() && 0 <= yi
            < f.sections[si].symbols.len(),
    }
}

/// Close every scope whose recorded end offset `off` has reached.
fn close_expired(scope: ScopeSt, off: usize) -> (r: ScopeSt)
    ensures
        scope_view(r) == spec_close_expired(scope_view(scope), off as int),
{
    let s1 = match scope {
        ScopeSt::Symbol { si, yi, sec_end, end } => if off as u64 >= end {
            ScopeSt::Section { si, end: sec_end }
        } else {
            scope
        },
        _ => scope,
    };
    match s1 {
        ScopeSt::Section { si, end } => if off as u64 >= end {
            ScopeSt::File
        } else {
            s1
        },
        _ => s1,
    }
}

/// Resolve one section group under the file scope's attribute set, and
/// its symbol groups under the section's resolved set.
fn resolve_section_group(sec: &mut SectionGroup, fa: &Attributes)
    ensures
        final(sec)@ == spec_resolve_section(fa@, old(sec)@),
{
    if sec.attributes.empty() && !fa.no_defaults {
        sec.attributes.inherit(fa);
    }
    let sa = sec.attributes.duplicate();
    let ghost sam = sec.attributes@;
    let ghost ys0 = symbols_view(sec.symbols@);
    let n = sec.symbols.len();
    let mut j: usize = 0;
    while j < n
        invariant
            j <= n == sec.symbols@.len(),
            sa@ == sam,
            sec.attributes@ == sam,
            sec.indices@ == old(sec).indices@,
            forall|k: int|
                0 <= k < j ==> symbols_view(sec.symbols@)[k] == spec_resolve_symbol(sam, ys0[k]),
            forall|k: int| j <= k < n ==> symbols_view(sec.symbols@)[k] == ys0[k],
        decreases n - j,
    {
        let ghost syms0 = sec.symbols@;
        if sec.symbols[j].attributes.empty() && !sa.no_defaults {
            sec.symbols[j].attributes.inherit(&sa);
            proof {
                lemma_symbols_view_update(syms0, j as int, sec.symbols@[j as int]);
                assert(symbols_view(sec.symbols@)[j as int] =~~= spec_resolve_symbol(
                    sam,
                    ys0[j as int],
                ));
            }
        } else {
            proof {
                assert(symbols_view(sec.symbols@)[j as int] =~~= spec_resolve_symbol(
                    sam,
                    ys0[j as int],
                ));
            }
        }
        j = j + 1;
    }
    proof {
        assert(final(sec)@ =~~= spec_resolve_section(fa@, old(sec)@));
    }
}

/// Run the single top-down resolution pass over the whole tree.
fn resolve_file(file: &mut File)
    ensures
        final(file)@ == spec_resolve(old(file)@),
{
    let fa = file.attributes.duplicate();
    let ghost fam = file.attributes@;
    let ghost ss0 = sections_view(file.sections@);
    let n = file.sections.len();
    let mut i: usize = 0;
    while i < n
        invariant
            i <= n == file.sections@.len(),
            fa@ == fam,
            file.attributes@ == fam,
            forall|k: int|
                0 <= k < i ==> sections_view(file.sections@)[k] == spec_resolve_section(
                    fam,
                    ss0[k],
                ),
            forall|k: int| i <= k < n ==> sections_view(file.sections@)[k] == ss0[k],
        decreases n - i,
    {
        let ghost secs0 = file.sections@;
        resolve_section_group(&mut file.sections[i], &fa);
        proof {
            lemma_sections_view_update(secs0, i as int, file.sections@[i as int]);
        }
        i = i + 1;
    }
    proof {
        assert(final(file)@ =~~= spec_resolve(old(file)@));
    }
}


/// The tag stream of an `aeabi` subsection, yielded one record at a
/// time together with each record's stream offset, and the scope walk
/// left to the caller.
pub struct PublicAttrIter {
    data: Vec<u8>,
    endian: Endian,
    pos: usize,
}

impl PublicAttrIter {
    /// The payload bytes being decoded.
    pub closed spec fn spec_data(&self) -> Seq<u8> {
        self.data@
    }

    /// The byte order size fields are read under.
    pub closed spec fn spec_endian(&self) -> Endian {
        self.endian
    }

    /// The stream offset of the next tag.
    pub closed spec fn spec_pos(&self) -> int {
        self.pos as int
    }

    #[verifier::type_invariant]
    spec fn type_inv(self) -> bool {
        self.pos <= self.data@.len() && self.data@.len() <= u32::MAX
    }

    pub(crate) fn new(data: Vec<u8>, endian: Endian) -> (r: PublicAttrIter)
        requires
            data@.len() <= u32::MAX,
        ensures
            r.spec_data() == data@,
            r.spec_endian() == endian,
            r.spec_pos() == 0,
    {
        PublicAttrIter { data, endian, pos: 0 }
    }

    /// Decode the next tag record, with the stream offset it starts at.
    /// A clean end-of-data exactly at a tag boundary ends the sequence;
    /// truncation inside a record is an error.
    pub fn next(&mut self) -> (r: Option<Result<(u32, Tag), TagError>>)
        ensures
            final(self).spec_data() == old(self).spec_data(),
            final(self).spec_endian() == old(self).spec_endian(),
            ({
                let data = old(self).spec_data();
                let p = old(self).spec_pos();
                let e = old(self).spec_endian();
                match r {
                    None => p == data.len() && final(self).spec_pos() == p,
                    Some(Ok((off, t))) => {
                        &&& off as int == p
                        &&& p < data.len()
                        &&& spec_read_tag(data, p, e) == Ok::<(TagM, int), TagError>(
                            (t@, final(self).spec_pos()),
                        )
                    },
                    Some(Err(err)) => {
                        &&& p < data.len()
                        &&& spec_read_tag(data, p, e) == Err::<(TagM, int), TagError>(err)
                        &&& final(self).spec_pos() == p
                    },
                }
            }),
    {
        proof {
            use_type_invariant(&*self);
        }
        if self.pos == self.data.len() {
            return None;
        }
        let off = self.pos as u32;
        match Tag::read(self.data.as_slice(), self.pos, self.endian) {
            Ok((t, p2)) => {
                self.pos = p2;
                Some(Ok((off, t)))
            },
            Err(err) => Some(Err(err)),
        }
    }
}

/// Decode a whole `aeabi` payload into the resolved attribute tree:
/// check the leading File tag and its declared size, walk the tag
/// stream building the scope tree, then run the resolution pass.
#[verifier::rlimit(100)]
pub(crate) fn build_attributes(data: Vec<u8>, endian: Endian) -> (r: Result<
    File,
    PublicAttrsError,
>)
    requires
        data@.len() <= u32::MAX,
    ensures
        ({
            let m = spec_build_attributes(data@, endian);
            match r {
                Ok(f) => m == Ok::<FileM, PublicAttrsErrorM>(f@),
                Err(e) => m == Err::<FileM, PublicAttrsErrorM>(e@),
            }
        }),
{
    let n = data.len();
    if n == 0 {
        return Err(PublicAttrsError::NoTags);
    }
    let (first, p1) = match Tag::read(data.as_slice(), 0, endian) {
        Ok(v) => v,
        Err(te) => {
            return Err(PublicAttrsError::Tag(te));
        },
    };
    let size = match first {
        Tag::File { size } => size,
        _ => {
            return Err(PublicAttrsError::NoFileTag);
        },
    };
    if size as usize != n {
        return Err(PublicAttrsError::ScopeEndsBeforeParent);
    }
    let mut file = File { attributes: Attributes::new(), sections: Vec::new() };
    let mut scope = ScopeSt::File;
    let mut pos = p1;
    proof {
        assert(file@ =~~= FileM::spec_empty());
    }
    let ghost target = spec_walk(data@, endian, p1 as int, FileM::spec_empty(), ScopeM::File);
    while pos < n
        invariant
            n == data@.len(),
            data@.len() <= u32::MAX,
            pos <= n,
            scope_wf(file@, scope_view(scope)),
            spec_walk(data@, endian, pos as int, file@, scope_view(scope)) == target,
            spec_build_attributes(data@, endian) == (match target {
                Ok(f) => Ok::<FileM, PublicAttrsErrorM>(spec_resolve(f)),
                Err(err) => Err::<FileM, PublicAttrsErrorM>(err),
            }),
        decreases n - pos,
    {
        let ghost fm0 = file@;
        let ghost s0 = scope_view(scope);
        let off = pos;
        let (t, p2) = match Tag::read(data.as_slice(), pos, endian) {
            Ok(v) => v,
            Err(te) => {
                return Err(PublicAttrsError::Tag(te));
            },
        };
        let ghost tm = t@;
        let scope1 = close_expired(scope, off);
        match t {
            Tag::File { .. } => {
                return Err(PublicAttrsError::DuplicateFileTag);
            },
            Tag::Section { size, sections } => {
                match scope1 {
                    ScopeSt::File => {
                        let end = off as u64 + size as u64;
                        if end > n as u64 {
                            return Err(PublicAttrsError::ScopeEndsBeforeParent);
                        }
                        let si = upsert_section(&mut file.sections, sections);
                        scope = ScopeSt::Section { si, end };
                    },
                    _ => {
                        return Err(PublicAttrsError::NotFileScope);
                    },
                }
            },
            Tag::Symbol { size, symbols } => {
                match scope1 {
                    ScopeSt::Section { si, end: sec_end } => {
                        let end = off as u64 + size as u64;
                        if end > sec_end {
                            return Err(PublicAttrsError::ScopeEndsBeforeParent);
                        }
                        let ghost secs0 = file.sections@;
                        let yi = upsert_symbol(&mut file.sections[si].symbols, symbols);
                        proof {
                            lemma_sections_view_update(secs0, si as int, file.sections@[si as int]);
                        }
                        scope = ScopeSt::Symbol { si, yi, sec_end, end };
                    },
                    _ => {
                        return Err(PublicAttrsError::NotSectionScope);
                    },
                }
            },
            other => {
                match scope1 {
                    ScopeSt::File => {
                        file.attributes.apply_tag(other);
                    },
                    ScopeSt::Section { si, .. } => {
                        let ghost secs0 = file.sections@;
                        file.sections[si].attributes.apply_tag(other);
                        proof {
                            lemma_sections_view_update(secs0, si as int, file.sections@[si as int]);
                        }
                    },
                    ScopeSt::Symbol { si, yi, .. } => {
                        let ghost secs0 = file.sections@;
                        let ghost syms0 = file.sections@[si as int].symbols@;
                        file.sections[si].symbols[yi].attributes.apply_tag(other);
                        proof {
                            lemma_symbols_view_update(
                                syms0,
                                yi as int,
                                file.sections@[si as int].symbols@[yi as int],
                            );
                            lemma_sections_view_update(secs0, si as int, file.sections@[si as int]);
                        }
                    },
                }
                scope = scope1;
            },
        }
        proof {
            assert(spec_step(fm0, s0, tm, off as int, n as int) == Ok::<
                (FileM, ScopeM),
                PublicAttrsErrorM,
            >((file@, scope_view(scope))));
        }
        pos = p2;
    }
    resolve_file(&mut file);
    Ok(file)
}

} // verus!
