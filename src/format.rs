//! Image formats and the tables that map caller identifiers onto them.
use vstd::prelude::*;
use vstd::utf8::is_ascii_chars;

verus! {

/// A raster encoding that the converter can read or write.
#[derive(Clone, Copy, Debug, PartialEq, Eq, Structural)]
pub enum Format {
    Avif,
    Bmp,
    Dds,
    OpenExr,
    Farbfeld,
    Gif,
    Hdr,
    Ico,
    Jpeg,
    Png,
    Pnm,
    Qoi,
    Tga,
    Tiff,
    WebP,
}

/// The identifier vocabulary a deployment accepts.
#[derive(Clone, Copy, Debug, PartialEq, Eq, Structural)]
pub enum IdentifierTable {
    /// One short token per format (`"png"`, `"exr"`, ...).
    ShortName,
    /// MIME types, several of which may name one format.
    Mime,
    /// The reduced short-name set, with `"jpg"` as a synonym of `"jpeg"`.
    Legacy,
}

pub open spec fn short_name_entries() -> Seq<(Seq<char>, Format)> {
    seq![
        ("avif"@, Format::Avif),
        ("bmp"@, Format::Bmp),
        ("dds"@, Format::Dds),
        ("exr"@, Format::OpenExr),
        ("ff"@, Format::Farbfeld),
        ("gif"@, Format::Gif),
        ("hdr"@, Format::Hdr),
        ("ico"@, Format::Ico),
        ("jpeg"@, Format::Jpeg),
        ("png"@, Format::Png),
        ("pnm"@, Format::Pnm),
        ("qoi"@, Format::Qoi),
        ("tga"@, Format::Tga),
        ("tiff"@, Format::Tiff),
        ("webp"@, Format::WebP),
    ]
}

pub open spec fn mime_entries() -> Seq<(Seq<char>, Format)> {
    seq![
        ("image/avif"@, Format::Avif),
        ("image/bmp"@, Format::Bmp),
        ("image/x-bmp"@, Format::Bmp),
        ("image/vnd-ms.dds"@, Format::Dds),
        ("image/x-direct-draw-surface"@, Format::Dds),
        ("image/x-exr"@, Format::OpenExr),
        ("image/ff"@, Format::Farbfeld),
        ("image/gif"@, Format::Gif),
        ("image/vnd.radiance"@, Format::Hdr),
        ("image/x-icon"@, Format::Ico),
        ("image/jpeg"@, Format::Jpeg),
        ("image/png"@, Format::Png),
        ("image/x-portable-bitmap"@, Format::Pnm),
        ("image/x-portable-graymap"@, Format::Pnm),
        ("image/x-portable-pixmap"@, Format::Pnm),
        ("image/x-portable-anymap"@, Format::Pnm),
        ("image/qoi"@, Format::Qoi),
        ("image/x-tga"@, Format::Tga),
        ("image/x-targa"@, Format::Tga),
        ("image/tiff"@, Format::Tiff),
        ("image/tiff-fx"@, Format::Tiff),
        ("image/webp"@, Format::WebP),
    ]
}

pub open spec fn legacy_entries() -> Seq<(Seq<char>, Format)> {
    seq![
        ("png"@, Format::Png),
        ("jpeg"@, Format::Jpeg),
        ("jpg"@, Format::Jpeg),
        ("gif"@, Format::Gif),
        ("bmp"@, Format::Bmp),
        ("ico"@, Format::Ico),
        ("tiff"@, Format::Tiff),
        ("webp"@, Format::WebP),
    ]
}

impl IdentifierTable {
    /// The table's rows, in the order in which they are searched.
    pub open spec fn entries(self) -> Seq<(Seq<char>, Format)> {
        match self {
            IdentifierTable::ShortName => short_name_entries(),
            IdentifierTable::Mime => mime_entries(),
            IdentifierTable::Legacy => legacy_entries(),
        }
    }

    /// The format named by an already lower-cased identifier, if any.
    pub open spec fn lookup(self, key: Seq<char>) -> Option<Format> {
        first_match(self.entries(), key)
    }

    /// Whether some identifier of this table names `f`.
    pub open spec fn supports(self, f: Format) -> bool {
        match self {
            IdentifierTable::Legacy => matches!(f,
                Format::Png | Format::Jpeg | Format::Gif | Format::Bmp
                | Format::Ico | Format::Tiff | Format::WebP),
            _ => true,
        }
    }

    /// The identifier by which this table names a format it supports.
    pub open spec fn canonical_identifier(self, f: Format) -> Seq<char> {
        match self {
            IdentifierTable::Mime => match f {
                Format::Avif => "image/avif"@,
                Format::Bmp => "image/bmp"@,
                Format::Dds => "image/vnd-ms.dds"@,
                Format::OpenExr => "image/x-exr"@,
                Format::Farbfeld => "image/ff"@,
                Format::Gif => "image/gif"@,
                Format::Hdr => "image/vnd.radiance"@,
                Format::Ico => "image/x-icon"@,
                Format::Jpeg => "image/jpeg"@,
                Format::Png => "image/png"@,
                Format::Pnm => "image/x-portable-bitmap"@,
                Format::Qoi => "image/qoi"@,
                Format::Tga => "image/x-tga"@,
                Format::Tiff => "image/tiff"@,
                Format::WebP => "image/webp"@,
            },
            _ => match f {
                Format::Avif => "avif"@,
                Format::Bmp => "bmp"@,
                Format::Dds => "dds"@,
                Format::OpenExr => "exr"@,
                Format::Farbfeld => "ff"@,
                Format::Gif => "gif"@,
                Format::Hdr => "hdr"@,
                Format::Ico => "ico"@,
                Format::Jpeg => "jpeg"@,
                Format::Png => "png"@,
                Format::Pnm => "pnm"@,
                Format::Qoi => "qoi"@,
                Format::Tga => "tga"@,
                Format::Tiff => "tiff"@,
                Format::WebP => "webp"@,
            },
        }
    }
}

/// The format of the first row whose identifier equals `key`.
pub open spec fn first_match(rows: Seq<(Seq<char>, Format)>, key: Seq<char>) -> Option<Format>
    decreases rows.len(),
{
    if rows.len() == 0 {
        None
    } else if rows[0].0 == key {
        Some(rows[0].1)
    } else {
        first_match(rows.drop_first(), key)
    }
}

/// A character with ASCII `A`..`Z` taken to `a`..`z`.
pub open spec fn ascii_lower_char(c: char) -> char {
    if 'A' <= c && c <= 'Z' {
        ((c as u32) + 32) as char
    } else {
        c
    }
}

pub open spec fn ascii_lower(s: Seq<char>) -> Seq<char> {
    s.map_values(|c: char| ascii_lower_char(c))
}

/// What `str::to_lowercase` makes of a text.
pub uninterp spec fn lower_of(s: Seq<char>) -> Seq<char>;

/// Relies on `str::to_lowercase`: the result depends on the characters
/// alone, and on ASCII text it maps `A`..`Z` to `a`..`z` and keeps the rest.
#[verifier::external_body]
fn lowercase(s: &str) -> (r: String)
    ensures
        r@ == lower_of(s@),
        is_ascii_chars(s@) ==> r@ == ascii_lower(s@),
{
    s.to_lowercase()
}

/// Whether two texts hold the same characters.
pub(crate) fn same_text(a: &str, b: &str) -> (r: bool)
    ensures
        r == (a@ == b@),
{
    let n = a.unicode_len();
    if n != b.unicode_len() {
        return false;
    }
    let mut i: usize = 0;
    while i < n
        invariant
            n == a@.len(),
            n == b@.len(),
            0 <= i <= n,
            forall|j: int| 0 <= j < i ==> a@[j] == b@[j],
        decreases n - i,
    {
        if a.get_char(i) != b.get_char(i) {
            return false;
        }
        i = i + 1;
    }
    assert(a@ =~= b@);
    true
}

impl IdentifierTable {
    /// The table's rows as data, in the order of `entries`.
    fn rows(self) -> (v: Vec<(&'static str, Format)>)
        ensures
            v@.len() == self.entries().len(),
            forall|i: int| 0 <= i < v@.len() ==> (#[trigger] v@[i]).0@ == self.entries()[i].0
                && v@[i].1 == self.entries()[i].1,
    {
        let mut v: Vec<(&'static str, Format)> = Vec::new();
        match self {
            IdentifierTable::ShortName => {
                v.push(("avif", Format::Avif));
                v.push(("bmp", Format::Bmp));
                v.push(("dds", Format::Dds));
                v.push(("exr", Format::OpenExr));
                v.push(("ff", Format::Farbfeld));
                v.push(("gif", Format::Gif));
                v.push(("hdr", Format::Hdr));
                v.push(("ico", Format::Ico));
                v.push(("jpeg", Format::Jpeg));
                v.push(("png", Format::Png));
                v.push(("pnm", Format::Pnm));
                v.push(("qoi", Format::Qoi));
                v.push(("tga", Format::Tga));
                v.push(("tiff", Format::Tiff));
                v.push(("webp", Format::WebP));
            },
            IdentifierTable::Mime => {
                v.push(("image/avif", Format::Avif));
                v.push(("image/bmp", Format::Bmp));
                v.push(("image/x-bmp", Format::Bmp));
                v.push(("image/vnd-ms.dds", Format::Dds));
                v.push(("image/x-direct-draw-surface", Format::Dds));
                v.push(("image/x-exr", Format::OpenExr));
                v.push(("image/ff", Format::Farbfeld));
                v.push(("image/gif", Format::Gif));
                v.push(("image/vnd.radiance", Format::Hdr));
                v.push(("image/x-icon", Format::Ico));
                v.push(("image/jpeg", Format::Jpeg));
                v.push(("image/png", Format::Png));
                v.push(("image/x-portable-bitmap", Format::Pnm));
                v.push(("image/x-portable-graymap", Format::Pnm));
                v.push(("image/x-portable-pixmap", Format::Pnm));
                v.push(("image/x-portable-anymap", Format::Pnm));
                v.push(("image/qoi", Format::Qoi));
                v.push(("image/x-tga", Format::Tga));
                v.push(("image/x-targa", Format::Tga));
                v.push(("image/tiff", Format::Tiff));
                v.push(("image/tiff-fx", Format::Tiff));
                v.push(("image/webp", Format::WebP));
            },
            IdentifierTable::Legacy => {
                v.push(("png", Format::Png));
                v.push(("jpeg", Format::Jpeg));
                v.push(("jpg", Format::Jpeg));
                v.push(("gif", Format::Gif));
                v.push(("bmp", Format::Bmp));
                v.push(("ico", Format::Ico));
                v.push(("tiff", Format::Tiff));
                v.push(("webp", Format::WebP));
            },
        }
        v
    }

    /// Looks up an identifier that is already in lower case.
    pub fn resolve_lowered(self, key: &str) -> (r: Option<Format>)
        ensures
            r == self.lookup(key@),
    {
        let rows = self.rows();
        let ghost entries = self.entries();
        let mut i: usize = 0;
        assert(entries.subrange(0, entries.len() as int) =~= entries);
        while i < rows.len()
            invariant
                rows@.len() == entries.len(),
                entries == self.entries(),
                forall|j: int| 0 <= j < rows@.len() ==> (#[trigger] rows@[j]).0@ == entries[j].0
                    && rows@[j].1 == entries[j].1,
                0 <= i <= rows@.len(),
                first_match(entries, key@) == first_match(entries.subrange(i as int, entries.len() as int), key@),
            decreases rows@.len() - i,
        {
            let ghost rest = entries.subrange(i as int, entries.len() as int);
            assert(rest[0] == entries[i as int]);
            assert(rest.drop_first() =~= entries.subrange(i + 1, entries.len() as int));
            if same_text(rows[i].0, key) {
                return Some(rows[i].1);
            }
            i = i + 1;
        }
        None
    }

    /// Resolves a caller's identifier, ignoring letter case.
    pub fn resolve(self, identifier: &str) -> (r: Option<Format>)
        ensures
            r == self.lookup(lower_of(identifier@)),
            is_ascii_chars(identifier@) ==> r == self.lookup(ascii_lower(identifier@)),
    {
        let lowered = lowercase(identifier);
        self.resolve_lowered(lowered.as_str())
    }
}

/// Resolves a MIME type such as `"image/png"`, ignoring letter case.
pub fn str_to_type(s: &str) -> (r: Option<Format>)
    ensures
        r == IdentifierTable::Mime.lookup(lower_of(s@)),
        is_ascii_chars(s@) ==> r == IdentifierTable::Mime.lookup(ascii_lower(s@)),
{
    IdentifierTable::Mime.resolve(s)
}

/// A few characters and the length of an identifier: enough to tell apart
/// any two identifiers of one table. A position past the end of a short
/// identifier stands for no particular character; the length tells those
/// apart.
pub open spec fn sketch(s: Seq<char>) -> (nat, char, char, char, char, char) {
    (s.len(), s[0], s[2], s[6], s[8], s[17])
}

/// The first row that carries `key` decides the lookup.
proof fn lemma_first_match_at(rows: Seq<(Seq<char>, Format)>, key: Seq<char>, i: int)
    requires
        0 <= i < rows.len(),
        rows[i].0 == key,
        forall|j: int| 0 <= j < i ==> sketch(#[trigger] rows[j].0) != sketch(key),
    ensures
        first_match(rows, key) == Some(rows[i].1),
    decreases i,
{
    if i > 0 {
        assert(sketch(rows[0].0) != sketch(key));
        let rest = rows.drop_first();
        assert forall|j: int| 0 <= j < i - 1 implies sketch(#[trigger] rest[j].0) != sketch(key) by {
            assert(rest[j] == rows[j + 1]);
        }
        lemma_first_match_at(rest, key, i - 1);
    }
}

/// Each format a table supports is found again from its canonical
/// identifier, whatever the ASCII letter case in which that is written.
pub proof fn lemma_canonical_identifier_resolves(t: IdentifierTable, f: Format, s: Seq<char>)
    requires
        t.supports(f),
        ascii_lower(s) == t.canonical_identifier(f),
    ensures
        t.lookup(ascii_lower(s)) == Some(f),
{
    match t {
        IdentifierTable::ShortName => {
            reveal_strlit("avif");
            lemma_first_match_at(t.entries(), t.canonical_identifier(Format::Avif), 0);
            reveal_strlit("bmp");
            lemma_first_match_at(t.entries(), t.canonical_identifier(Format::Bmp), 1);
            reveal_strlit("dds");
            lemma_first_match_at(t.entries(), t.canonical_identifier(Format::Dds), 2);
            reveal_strlit("exr");
            lemma_first_match_at(t.entries(), t.canonical_identifier(Format::OpenExr), 3);
            reveal_strlit("ff");
            lemma_first_match_at(t.entries(), t.canonical_identifier(Format::Farbfeld), 4);
            reveal_strlit("gif");
            lemma_first_match_at(t.entries(), t.canonical_identifier(Format::Gif), 5);
            reveal_strlit("hdr");
            lemma_first_match_at(t.entries(), t.canonical_identifier(Format::Hdr), 6);
            reveal_strlit("ico");
            lemma_first_match_at(t.entries(), t.canonical_identifier(Format::Ico), 7);
            reveal_strlit("jpeg");
            lemma_first_match_at(t.entries(), t.canonical_identifier(Format::Jpeg), 8);
            reveal_strlit("png");
            lemma_first_match_at(t.entries(), t.canonical_identifier(Format::Png), 9);
            reveal_strlit("pnm");
            lemma_first_match_at(t.entries(), t.canonical_identifier(Format::Pnm), 10);
            reveal_strlit("qoi");
            lemma_first_match_at(t.entries(), t.canonical_identifier(Format::Qoi), 11);
            reveal_strlit("tga");
            lemma_first_match_at(t.entries(), t.canonical_identifier(Format::Tga), 12);
            reveal_strlit("tiff");
            lemma_first_match_at(t.entries(), t.canonical_identifier(Format::Tiff), 13);
            reveal_strlit("webp");
            lemma_first_match_at(t.entries(), t.canonical_identifier(Format::WebP), 14);
        },
        IdentifierTable::Mime => {
            reveal_strlit("image/avif");
            lemma_first_match_at(t.entries(), t.canonical_identifier(Format::Avif), 0);
            reveal_strlit("image/bmp");
            lemma_first_match_at(t.entries(), t.canonical_identifier(Format::Bmp), 1);
            reveal_strlit("image/x-bmp");
            reveal_strlit("image/vnd-ms.dds");
            lemma_first_match_at(t.entries(), t.canonical_identifier(Format::Dds), 3);
            reveal_strlit("image/x-direct-draw-surface");
            reveal_strlit("image/x-exr");
            lemma_first_match_at(t.entries(), t.canonical_identifier(Format::OpenExr), 5);
            reveal_strlit("image/ff");
            lemma_first_match_at(t.entries(), t.canonical_identifier(Format::Farbfeld), 6);
            reveal_strlit("image/gif");
            lemma_first_match_at(t.entries(), t.canonical_identifier(Format::Gif), 7);
            reveal_strlit("image/vnd.radiance");
            lemma_first_match_at(t.entries(), t.canonical_identifier(Format::Hdr), 8);
            reveal_strlit("image/x-icon");
            lemma_first_match_at(t.entries(), t.canonical_identifier(Format::Ico), 9);
            reveal_strlit("image/jpeg");
            lemma_first_match_at(t.entries(), t.canonical_identifier(Format::Jpeg), 10);
            reveal_strlit("image/png");
            lemma_first_match_at(t.entries(), t.canonical_identifier(Format::Png), 11);
            reveal_strlit("image/x-portable-bitmap");
            lemma_first_match_at(t.entries(), t.canonical_identifier(Format::Pnm), 12);
            reveal_strlit("image/x-portable-graymap");
            reveal_strlit("image/x-portable-pixmap");
            reveal_strlit("image/x-portable-anymap");
            reveal_strlit("image/qoi");
            lemma_first_match_at(t.entries(), t.canonical_identifier(Format::Qoi), 16);
            reveal_strlit("image/x-tga");
            lemma_first_match_at(t.entries(), t.canonical_identifier(Format::Tga), 17);
            reveal_strlit("image/x-targa");
            reveal_strlit("image/tiff");
            lemma_first_match_at(t.entries(), t.canonical_identifier(Format::Tiff), 19);
            reveal_strlit("image/tiff-fx");
            reveal_strlit("image/webp");
            lemma_first_match_at(t.entries(), t.canonical_identifier(Format::WebP), 21);
        },
        IdentifierTable::Legacy => {
            reveal_strlit("png");
            lemma_first_match_at(t.entries(), t.canonical_identifier(Format::Png), 0);
            reveal_strlit("jpeg");
            lemma_first_match_at(t.entries(), t.canonical_identifier(Format::Jpeg), 1);
            reveal_strlit("jpg");
            reveal_strlit("gif");
            lemma_first_match_at(t.entries(), t.canonical_identifier(Format::Gif), 3);
            reveal_strlit("bmp");
            lemma_first_match_at(t.entries(), t.canonical_identifier(Format::Bmp), 4);
            reveal_strlit("ico");
            lemma_first_match_at(t.entries(), t.canonical_identifier(Format::Ico), 5);
            reveal_strlit("tiff");
            lemma_first_match_at(t.entries(), t.canonical_identifier(Format::Tiff), 6);
            reveal_strlit("webp");
            lemma_first_match_at(t.entries(), t.canonical_identifier(Format::WebP), 7);
        },
    }
}

} // verus!
