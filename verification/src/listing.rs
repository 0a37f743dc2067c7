//! The listing of discovered accelerators that the `discover` command prints: a table,
//! JSON or YAML.
use vstd::prelude::*;
use crate::aggregates::Accelerator;
use crate::ids::uuid_text;
use crate::value_objects::AcceleratorType;

verus! {

/// The layout of a discovery listing.
#[derive(Debug, Clone, Copy, PartialEq, Eq, Structural)]
pub enum ListingFormat {
    Table,
    Json,
    Yaml,
}

/// `piece` written `n` times.
pub open spec fn repeated(piece: Seq<char>, n: nat) -> Seq<char>
    decreases n,
{
    if n == 0 {
        Seq::<char>::empty()
    } else {
        repeated(piece, (n - 1) as nat) + piece
    }
}

/// `s` padded with spaces on the right to `width` characters, as `{:<width}` writes a string.
pub open spec fn pad_right(s: Seq<char>, width: nat) -> Seq<char> {
    if s.len() < width {
        s + repeated(" "@, (width - s.len()) as nat)
    } else {
        s
    }
}

/// A hexadecimal digit, in lower case.
pub open spec fn hex_digit_text(d: nat) -> Seq<char> {
    if d == 0 {
        "0"@
    } else if d == 1 {
        "1"@
    } else if d == 2 {
        "2"@
    } else if d == 3 {
        "3"@
    } else if d == 4 {
        "4"@
    } else if d == 5 {
        "5"@
    } else if d == 6 {
        "6"@
    } else if d == 7 {
        "7"@
    } else if d == 8 {
        "8"@
    } else if d == 9 {
        "9"@
    } else if d == 10 {
        "a"@
    } else if d == 11 {
        "b"@
    } else if d == 12 {
        "c"@
    } else if d == 13 {
        "d"@
    } else if d == 14 {
        "e"@
    } else {
        "f"@
    }
}

/// The hexadecimal digits of a number below 256, without leading zeros.
pub open spec fn hex_text(v: u32) -> Seq<char> {
    if v < 16 {
        hex_digit_text(v as nat)
    } else {
        hex_digit_text((v / 16) as nat) + hex_digit_text((v % 16) as nat)
    }
}

/// How `Debug` writes a character inside a quoted string: the escapes of `\0`, tab, line
/// ends, backslash and double quote, `\u{..}` for the other ASCII control characters, and
/// any other character as it is.
pub open spec fn debug_char(c: char) -> Seq<char> {
    if c == '\0' {
        "\\0"@
    } else if c == '\t' {
        "\\t"@
    } else if c == '\r' {
        "\\r"@
    } else if c == '\n' {
        "\\n"@
    } else if c == '\\' {
        "\\\\"@
    } else if c == '"' {
        "\\\""@
    } else if (c as u32) < 0x20 || c as u32 == 0x7f {
        "\\u{"@ + hex_text(c as u32) + "}"@
    } else {
        seq![c]
    }
}

/// The characters of `s`, each as `Debug` writes it inside a quoted string.
pub open spec fn debug_chars(s: Seq<char>) -> Seq<char>
    decreases s.len(),
{
    if s.len() == 0 {
        Seq::<char>::empty()
    } else {
        debug_chars(s.drop_last()) + debug_char(s.last())
    }
}

/// `s` as `Debug` writes a string: quoted, with its characters escaped.
pub open spec fn debug_str(s: Seq<char>) -> Seq<char> {
    "\""@ + debug_chars(s) + "\""@
}

/// An accelerator type as `Debug` writes it: the variant's name, with the fields of a
/// custom accelerator.
pub open spec fn type_debug_text(t: AcceleratorType) -> Seq<char> {
    match t {
        AcceleratorType::NvidiaGpu => "NvidiaGpu"@,
        AcceleratorType::AppleGpu => "AppleGpu"@,
        AcceleratorType::AppleNeuralEngine => "AppleNeuralEngine"@,
        AcceleratorType::GoogleTpu => "GoogleTpu"@,
        AcceleratorType::AmdGpu => "AmdGpu"@,
        AcceleratorType::IntelNpu => "IntelNpu"@,
        AcceleratorType::Custom { name, vendor } => "Custom { name: "@ + debug_str(name@) + ", vendor: "@
            + debug_str(vendor@) + " }"@,
        AcceleratorType::Cpu => "Cpu"@,
    }
}

/// The header of the table: the column names, padded to 20, 15, 20 and 30 characters.
pub open spec fn table_header() -> Seq<char> {
    pad_right("Name"@, 20) + " "@ + pad_right("Type"@, 15) + " "@ + pad_right("Vendor"@, 20) + " "@
        + pad_right("Model"@, 30)
}

/// One line of the table: name, vendor and model padded like the header; the type as it
/// comes, since `Debug` of the type does not pad.
pub open spec fn table_row(a: Accelerator) -> Seq<char> {
    pad_right(a.name@, 20) + " "@ + type_debug_text(a.accelerator_type) + " "@ + pad_right(a.vendor@, 20)
        + " "@ + pad_right(a.model@, 30) + "\n"@
}

/// One entry of the JSON listing, followed by a comma when another entry follows.
pub open spec fn json_entry(a: Accelerator, comma: bool) -> Seq<char> {
    "    {\"id\": \""@ + uuid_text(a.id.0) + "\", \"name\": \""@ + a.name@ + "\", \"type\": "@
        + type_debug_text(a.accelerator_type) + ", \"vendor\": \""@ + a.vendor@ + "\"}"@ + (if comma {
        ","@
    } else {
        ""@
    }) + "\n"@
}

/// One entry of the YAML listing.
pub open spec fn yaml_entry(a: Accelerator) -> Seq<char> {
    "  - id: "@ + uuid_text(a.id.0) + "\n    name: "@ + a.name@ + "\n    type: "@ + type_debug_text(
        a.accelerator_type,
    ) + "\n    vendor: "@ + a.vendor@ + "\n    model: "@ + a.model@ + "\n"@
}

/// The entry of accelerator `i` of `accels`.
pub open spec fn listing_entry(accels: Seq<Accelerator>, format: ListingFormat, i: int) -> Seq<char> {
    match format {
        ListingFormat::Table => table_row(accels[i]),
        ListingFormat::Json => json_entry(accels[i], i + 1 < accels.len()),
        ListingFormat::Yaml => yaml_entry(accels[i]),
    }
}

/// The entries of the first `k` accelerators, in order.
pub open spec fn listing_entries(accels: Seq<Accelerator>, format: ListingFormat, k: nat) -> Seq<char>
    decreases k,
{
    if k == 0 {
        Seq::<char>::empty()
    } else {
        listing_entries(accels, format, (k - 1) as nat) + listing_entry(accels, format, k - 1)
    }
}

/// What comes before the entries: an empty line, the header and a rule of 85 dashes for
/// the table; the opening of the object and its array for JSON; the key for YAML.
pub open spec fn listing_head(format: ListingFormat) -> Seq<char> {
    match format {
        ListingFormat::Table => "\n"@ + table_header() + "\n"@ + repeated("-"@, 85) + "\n"@,
        ListingFormat::Json => "{\n  \"accelerators\": [\n"@,
        ListingFormat::Yaml => "accelerators:\n"@,
    }
}

/// What comes after the entries: the closing of the array and the object for JSON.
pub open spec fn listing_tail(format: ListingFormat) -> Seq<char> {
    match format {
        ListingFormat::Json => "  ]\n}\n"@,
        _ => Seq::<char>::empty(),
    }
}

/// The listing of `accels` in the given layout, one line per text line.
pub open spec fn listing_text(accels: Seq<Accelerator>, format: ListingFormat) -> Seq<char> {
    listing_head(format) + listing_entries(accels, format, accels.len()) + listing_tail(format)
}

/// Appends `piece` `n` times.
fn push_repeated(out: &mut String, piece: &str, n: usize)
    ensures
        final(out)@ == old(out)@ + repeated(piece@, n as nat),
{
    let mut i: usize = 0;
    while i < n
        invariant
            i <= n,
            out@ == old(out)@ + repeated(piece@, i as nat),
        decreases n - i,
    {
        out.append(piece);
        i = i + 1;
        assert(out@ =~= old(out)@ + repeated(piece@, i as nat));
    }
}

/// Appends `s` padded with spaces to `width` characters.
fn push_padded(out: &mut String, s: &str, width: usize)
    ensures
        final(out)@ == old(out)@ + pad_right(s@, width as nat),
{
    out.append(s);
    let n = s.unicode_len();
    if n < width {
        push_repeated(out, " ", width - n);
    }
    assert(out@ =~= old(out)@ + pad_right(s@, width as nat));
}

/// A hexadecimal digit, in lower case.
fn hex_digit_str(d: u32) -> (r: &'static str)
    requires
        d < 16,
    ensures
        r@ == hex_digit_text(d as nat),
{
    if d == 0 {
        "0"
    } else if d == 1 {
        "1"
    } else if d == 2 {
        "2"
    } else if d == 3 {
        "3"
    } else if d == 4 {
        "4"
    } else if d == 5 {
        "5"
    } else if d == 6 {
        "6"
    } else if d == 7 {
        "7"
    } else if d == 8 {
        "8"
    } else if d == 9 {
        "9"
    } else if d == 10 {
        "a"
    } else if d == 11 {
        "b"
    } else if d == 12 {
        "c"
    } else if d == 13 {
        "d"
    } else if d == 14 {
        "e"
    } else {
        "f"
    }
}

/// Appends character `i` of `s` as `Debug` writes it inside a quoted string.
fn push_debug_char(out: &mut String, s: &str, i: usize)
    requires
        i < s@.len(),
    ensures
        final(out)@ == old(out)@ + debug_char(s@[i as int]),
{
    let c = s.get_char(i);
    let v = c as u32;
    if c == '\0' {
        out.append("\\0");
    } else if c == '\t' {
        out.append("\\t");
    } else if c == '\r' {
        out.append("\\r");
    } else if c == '\n' {
        out.append("\\n");
    } else if c == '\\' {
        out.append("\\\\");
    } else if c == '"' {
        out.append("\\\"");
    } else if v < 0x20 || v == 0x7f {
        out.append("\\u{");
        if v < 16 {
            out.append(hex_digit_str(v));
        } else {
            out.append(hex_digit_str(v / 16));
            out.append(hex_digit_str(v % 16));
        }
        out.append("}");
        assert(out@ =~= old(out)@ + debug_char(c));
    } else {
        let n = s.unicode_len();
        assert(i < n);
        let one = s.substring_char(i, i + 1);
        assert(one@ =~= seq![c]);
        out.append(one);
    }
}

/// Appends `s` as `Debug` writes a string.
fn push_debug_str(out: &mut String, s: &str)
    ensures
        final(out)@ == old(out)@ + debug_str(s@),
{
    out.append("\"");
    let n = s.unicode_len();
    let mut i: usize = 0;
    assert(s@.subrange(0, 0) =~= Seq::<char>::empty());
    while i < n
        invariant
            n == s@.len(),
            i <= n,
            out@ == old(out)@ + "\""@ + debug_chars(s@.subrange(0, i as int)),
        decreases n - i,
    {
        push_debug_char(out, s, i);
        assert(s@.subrange(0, i + 1).drop_last() =~= s@.subrange(0, i as int));
        assert(s@.subrange(0, i + 1).last() == s@[i as int]);
        i = i + 1;
        assert(out@ =~= old(out)@ + "\""@ + debug_chars(s@.subrange(0, i as int)));
    }
    assert(s@.subrange(0, n as int) =~= s@);
    out.append("\"");
    assert(out@ =~= old(out)@ + debug_str(s@));
}

/// Appends an accelerator type as `Debug` writes it.
fn push_type(out: &mut String, t: &AcceleratorType)
    ensures
        final(out)@ == old(out)@ + type_debug_text(*t),
{
    match t {
        AcceleratorType::NvidiaGpu => out.append("NvidiaGpu"),
        AcceleratorType::AppleGpu => out.append("AppleGpu"),
        AcceleratorType::AppleNeuralEngine => out.append("AppleNeuralEngine"),
        AcceleratorType::GoogleTpu => out.append("GoogleTpu"),
        AcceleratorType::AmdGpu => out.append("AmdGpu"),
        AcceleratorType::IntelNpu => out.append("IntelNpu"),
        AcceleratorType::Custom { name, vendor } => {
            out.append("Custom { name: ");
            push_debug_str(out, name.as_str());
            out.append(", vendor: ");
            push_debug_str(out, vendor.as_str());
            out.append(" }");
            assert(out@ =~= old(out)@ + type_debug_text(*t));
        },
        AcceleratorType::Cpu => out.append("Cpu"),
    }
}

/// Appends the table line of `a`.
fn push_table_row(out: &mut String, a: &Accelerator)
    ensures
        final(out)@ == old(out)@ + table_row(*a),
{
    push_padded(out, a.name.as_str(), 20);
    out.append(" ");
    push_type(out, &a.accelerator_type);
    out.append(" ");
    push_padded(out, a.vendor.as_str(), 20);
    out.append(" ");
    push_padded(out, a.model.as_str(), 30);
    out.append("\n");
    assert(out@ =~= old(out)@ + table_row(*a));
}

/// Appends the JSON entry of `a`, with a comma when `comma` holds.
fn push_json_entry(out: &mut String, a: &Accelerator, comma: bool)
    ensures
        final(out)@ == old(out)@ + json_entry(*a, comma),
{
    let id = a.id.to_string();
    out.append("    {\"id\": \"");
    out.append(id.as_str());
    out.append("\", \"name\": \"");
    out.append(a.name.as_str());
    out.append("\", \"type\": ");
    push_type(out, &a.accelerator_type);
    out.append(", \"vendor\": \"");
    out.append(a.vendor.as_str());
    out.append("\"}");
    if comma {
        out.append(",");
    } else {
        out.append("");
    }
    out.append("\n");
    assert(out@ =~= old(out)@ + json_entry(*a, comma));
}

/// Appends the YAML entry of `a`.
fn push_yaml_entry(out: &mut String, a: &Accelerator)
    ensures
        final(out)@ == old(out)@ + yaml_entry(*a),
{
    let id = a.id.to_string();
    out.append("  - id: ");
    out.append(id.as_str());
    out.append("\n    name: ");
    out.append(a.name.as_str());
    out.append("\n    type: ");
    push_type(out, &a.accelerator_type);
    out.append("\n    vendor: ");
    out.append(a.vendor.as_str());
    out.append("\n    model: ");
    out.append(a.model.as_str());
    out.append("\n");
    assert(out@ =~= old(out)@ + yaml_entry(*a));
}

/// The listing that `discover` prints of the accelerators it found.
pub fn discovery_listing(accels: &Vec<Accelerator>, format: ListingFormat) -> (r: String)
    ensures
        r@ == listing_text(accels@, format),
{
    let mut out = String::new();
    match format {
        ListingFormat::Table => {
            out.append("\n");
            push_padded(&mut out, "Name", 20);
            out.append(" ");
            push_padded(&mut out, "Type", 15);
            out.append(" ");
            push_padded(&mut out, "Vendor", 20);
            out.append(" ");
            push_padded(&mut out, "Model", 30);
            out.append("\n");
            push_repeated(&mut out, "-", 85);
            out.append("\n");
        },
        ListingFormat::Json => out.append("{\n  \"accelerators\": [\n"),
        ListingFormat::Yaml => out.append("accelerators:\n"),
    }
    assert(out@ =~= listing_head(format));
    let n = accels.len();
    let mut i: usize = 0;
    while i < n
        invariant
            n == accels@.len(),
            i <= n,
            out@ == listing_head(format) + listing_entries(accels@, format, i as nat),
        decreases n - i,
    {
        match format {
            ListingFormat::Table => push_table_row(&mut out, &accels[i]),
            ListingFormat::Json => push_json_entry(&mut out, &accels[i], i + 1 < n),
            ListingFormat::Yaml => push_yaml_entry(&mut out, &accels[i]),
        }
        assert(out@ =~= listing_head(format) + listing_entries(accels@, format, (i + 1) as nat));
        i = i + 1;
    }
    if format == ListingFormat::Json {
        out.append("  ]\n}\n");
    }
    assert(out@ =~= listing_text(accels@, format));
    out
}

} // verus!
