//! Rendering of results: one text line per device, or a single JSON
//! document holding an ordered array with one object per emitted value.

use vstd::prelude::*;

use crate::charge::charge_text;
use crate::device::device_text;
use crate::text::append_decimal;
use crate::text::digit_char;
use crate::text::push_char;
use crate::text::spec_decimal;
use crate::text::spec_digit;
use crate::DeviceWithCharge;
use crate::DeviceWithChargeView;

verus! {

/// The JSON escape of one character: quote, backslash and the common
/// control characters get their two-character escapes, the remaining
/// control characters a `\u00..` escape, and every other character stands
/// for itself.
pub open spec fn json_escape_char(c: char) -> Seq<char> {
    if c == '"' {
        seq!['\\', '"']
    } else if c == '\\' {
        seq!['\\', '\\']
    } else if c == '\n' {
        seq!['\\', 'n']
    } else if c == '\r' {
        seq!['\\', 'r']
    } else if c == '\t' {
        seq!['\\', 't']
    } else if (c as u32) < 32 {
        seq!['\\', 'u', '0', '0', spec_digit(c as int / 16), spec_digit(c as int % 16)]
    } else {
        seq![c]
    }
}

/// The JSON escape of a whole string body.
pub open spec fn json_escape(s: Seq<char>) -> Seq<char>
    decreases s.len(),
{
    if s.len() == 0 {
        Seq::empty()
    } else {
        json_escape_char(s[0]) + json_escape(s.drop_first())
    }
}

/// A JSON string literal: the escaped body between double quotes.
pub open spec fn json_string(s: Seq<char>) -> Seq<char> {
    seq!['"'] + json_escape(s) + seq!['"']
}

/// Escaping a string one character longer escapes the old prefix and then
/// the one character.
proof fn lemma_json_escape_snoc(s: Seq<char>, i: int)
    requires
        0 <= i < s.len(),
    ensures
        json_escape(s.take(i + 1)) == json_escape(s.take(i)) + json_escape_char(s[i]),
    decreases i,
{
    if i == 0 {
        assert(s.take(1).len() == 1);
        assert(s.take(0).len() == 0);
        assert(s.take(1)[0] == s[0]);
        assert(s.take(1).drop_first() =~= Seq::<char>::empty());
        assert(json_escape(Seq::<char>::empty()) =~= Seq::<char>::empty());
        assert(json_escape(s.take(1)) == json_escape_char(s.take(1)[0]) + json_escape(
            s.take(1).drop_first(),
        ));
        assert(json_escape(s.take(1)) =~= json_escape(s.take(0)) + json_escape_char(s[0]));
    } else {
        lemma_json_escape_snoc(s.drop_first(), i - 1);
        assert(s.take(i + 1)[0] == s[0]);
        assert(s.take(i + 1).drop_first() =~= s.drop_first().take(i));
        assert(s.take(i)[0] == s[0]);
        assert(s.take(i).drop_first() =~= s.drop_first().take(i - 1));
        assert(s.drop_first()[i - 1] == s[i]);
        assert(json_escape(s.take(i + 1)) =~= json_escape(s.take(i)) + json_escape_char(
            s[i],
        ));
    }
}

/// Appends the JSON escape of `s` to `out`.
fn append_json_escaped(out: &mut String, s: &str)
    ensures
        final(out)@ == old(out)@ + json_escape(s@),
{
    let len = s.unicode_len();
    let mut i: usize = 0;
    proof {
        assert(s@.take(0) =~= Seq::<char>::empty());
    }
    while i < len
        invariant
            len == s@.len(),
            0 <= i <= len,
            out@ == old(out)@ + json_escape(s@.take(i as int)),
        decreases len - i,
    {
        let c = s.get_char(i);
        if c == '"' {
            push_char(out, '\\');
            push_char(out, '"');
        } else if c == '\\' {
            push_char(out, '\\');
            push_char(out, '\\');
        } else if c == '\n' {
            push_char(out, '\\');
            push_char(out, 'n');
        } else if c == '\r' {
            push_char(out, '\\');
            push_char(out, 'r');
        } else if c == '\t' {
            push_char(out, '\\');
            push_char(out, 't');
        } else if (c as u32) < 32 {
            let code = c as u32;
            push_char(out, '\\');
            push_char(out, 'u');
            push_char(out, '0');
            push_char(out, '0');
            push_char(out, digit_char((code / 16) as u8));
            push_char(out, digit_char((code % 16) as u8));
        } else {
            push_char(out, c);
        }
        proof {
            lemma_json_escape_snoc(s@, i as int);
            assert(out@ =~= old(out)@ + json_escape(s@.take(i as int + 1)));
        }
        i += 1;
    }
    proof {
        assert(s@.take(len as int) =~= s@);
    }
}

/// Appends the JSON string literal for `s` to `out`.
fn append_json_string(out: &mut String, s: &str)
    ensures
        final(out)@ == old(out)@ + json_string(s@),
{
    push_char(out, '"');
    append_json_escaped(out, s);
    push_char(out, '"');
    assert(out@ =~= old(out)@ + json_string(s@));
}

/// The JSON object for one result: the device name, the alias and icon
/// when present, the address, and the numeric charge, in that order.
pub open spec fn json_device(v: DeviceWithChargeView) -> Seq<char> {
    seq!['{'] + json_string("name"@) + seq![':'] + json_string(v.device.name) + (match v
        .device
        .alias {
        Some(a) => seq![','] + json_string("alias"@) + seq![':'] + json_string(a),
        None => Seq::<char>::empty(),
    }) + seq![','] + json_string("address"@) + seq![':'] + json_string(v.device.address) + (
    match v.device.icon {
        Some(i) => seq![','] + json_string("icon"@) + seq![':'] + json_string(i),
        None => Seq::<char>::empty(),
    }) + seq![','] + json_string("charge"@) + seq![':'] + spec_decimal(v.charge as int)
        + seq!['}']
}

/// Appends the JSON object for one result to `out`.
#[verifier::rlimit(50)]
fn append_json_device(out: &mut String, dwc: &DeviceWithCharge)
    ensures
        final(out)@ == old(out)@ + json_device(dwc@),
{
    let ghost v = dwc@;
    push_char(out, '{');
    append_json_string(out, "name");
    push_char(out, ':');
    append_json_string(out, dwc.device.name());
    let ghost head = seq!['{'] + json_string("name"@) + seq![':'] + json_string(v.device.name);
    assert(out@ =~= old(out)@ + head);
    if let Some(alias) = dwc.device.alias() {
        push_char(out, ',');
        append_json_string(out, "alias");
        push_char(out, ':');
        append_json_string(out, alias);
    }
    let ghost with_alias = head + (match v.device.alias {
        Some(a) => seq![','] + json_string("alias"@) + seq![':'] + json_string(a),
        None => Seq::<char>::empty(),
    });
    assert(out@ =~= old(out)@ + with_alias);
    push_char(out, ',');
    append_json_string(out, "address");
    push_char(out, ':');
    append_json_string(out, dwc.device.address());
    let ghost with_address = with_alias + seq![','] + json_string("address"@) + seq![':']
        + json_string(v.device.address);
    assert(out@ =~= old(out)@ + with_address);
    if let Some(icon) = dwc.device.icon() {
        push_char(out, ',');
        append_json_string(out, "icon");
        push_char(out, ':');
        append_json_string(out, icon);
    }
    let ghost with_icon = with_address + (match v.device.icon {
        Some(i) => seq![','] + json_string("icon"@) + seq![':'] + json_string(i),
        None => Seq::<char>::empty(),
    });
    assert(out@ =~= old(out)@ + with_icon);
    push_char(out, ',');
    append_json_string(out, "charge");
    push_char(out, ':');
    append_decimal(out, dwc.charge.value());
    push_char(out, '}');
    assert(out@ =~= old(out)@ + with_icon + seq![','] + json_string("charge"@) + seq![':']
        + spec_decimal(v.charge as int) + seq!['}']);
    assert(out@ =~= old(out)@ + json_device(v));
}

/// The comma-separated JSON objects of all results, in order: exactly one
/// object per element of `items`.
pub open spec fn json_items(items: Seq<DeviceWithChargeView>) -> Seq<char>
    decreases items.len(),
{
    if items.len() == 0 {
        Seq::empty()
    } else if items.len() == 1 {
        json_device(items[0])
    } else {
        json_device(items[0]) + seq![','] + json_items(items.drop_first())
    }
}

/// The whole document: the array of all the objects.
pub open spec fn json_doc(items: Seq<DeviceWithChargeView>) -> Seq<char> {
    seq!['['] + json_items(items) + seq![']']
}

/// Rendering one more item appends a separating comma (except before the
/// first) and that item's object.
proof fn lemma_json_items_snoc(items: Seq<DeviceWithChargeView>, i: int)
    requires
        0 <= i < items.len(),
    ensures
        json_items(items.take(i + 1)) == json_items(items.take(i)) + (if i == 0 {
            Seq::<char>::empty()
        } else {
            seq![',']
        }) + json_device(items[i]),
    decreases i,
{
    if i == 0 {
        assert(items.take(1)[0] == items[0]);
        assert(json_items(items.take(0)) =~= Seq::<char>::empty());
        assert(json_items(items.take(1)) =~= json_items(items.take(0))
            + Seq::<char>::empty() + json_device(items[0]));
    } else {
        lemma_json_items_snoc(items.drop_first(), i - 1);
        assert(items.take(i + 1)[0] == items[0]);
        assert(items.take(i + 1).drop_first() =~= items.drop_first().take(i));
        assert(items.take(i)[0] == items[0]);
        assert(items.take(i).drop_first() =~= items.drop_first().take(i - 1));
        assert(items.drop_first()[i - 1] == items[i]);
        assert(items.take(i + 1).len() == i + 1);
        if i == 1 {
            assert(items.take(1).len() == 1);
            assert(json_items(items.take(2)) =~= json_items(items.take(1)) + seq![',']
                + json_device(items[1]));
        } else {
            assert(json_items(items.take(i + 1)) =~= json_items(items.take(i)) + seq![',']
                + json_device(items[i]));
        }
    }
}

/// Renders the results as a JSON document: an ordered array holding one
/// object per element of `devices`, in order.
pub fn render_json(devices: &Vec<DeviceWithCharge>) -> (r: String)
    ensures
        r@ == json_doc(devices@.map_values(|d: DeviceWithCharge| d@)),
{
    let ghost items = devices@.map_values(|d: DeviceWithCharge| d@);
    let mut out = String::new();
    push_char(&mut out, '[');
    let mut i: usize = 0;
    proof {
        assert(items.take(0) =~= Seq::<DeviceWithChargeView>::empty());
    }
    while i < devices.len()
        invariant
            items == devices@.map_values(|d: DeviceWithCharge| d@),
            0 <= i <= devices@.len(),
            out@ == seq!['['] + json_items(items.take(i as int)),
        decreases devices@.len() - i,
    {
        if i > 0 {
            push_char(&mut out, ',');
        }
        append_json_device(&mut out, &devices[i]);
        proof {
            lemma_json_items_snoc(items, i as int);
            assert(out@ =~= seq!['['] + json_items(items.take(i as int + 1)));
        }
        i += 1;
    }
    push_char(&mut out, ']');
    proof {
        assert(items.take(devices@.len() as int) =~= items);
        assert(out@ =~= json_doc(items));
    }
    out
}

/// One text line per result: the rendered device, a separating colon, and
/// the rendered charge.
pub open spec fn line_text(v: DeviceWithChargeView) -> Seq<char> {
    device_text(v.device) + ": "@ + charge_text(v.charge as int)
}

/// Renders one result as its text line.
pub fn render_line(dwc: &DeviceWithCharge) -> (r: String)
    ensures
        r@ == line_text(dwc@),
{
    let mut s = dwc.device.render();
    s.append(": ");
    let charge = dwc.charge.render();
    s.append(charge.as_str());
    s
}

/// Walks the rest of the collection and renders everything it emits as the
/// JSON document: one array element per emitted value, in emission order.
pub fn render_document(devices: &mut crate::Devices) -> (r: String)
    requires
        old(devices).wf(),
    ensures
        final(devices).wf(),
        r@ == json_doc(old(devices).remaining()),
{
    let all = devices.collect_all();
    render_json(&all)
}

/// A document rendered for `n` results holds exactly `n` array elements:
/// the element list is empty exactly for no results, and otherwise is the
/// first result's object followed by one comma-separated object per later
/// result.
pub proof fn lemma_one_object_per_item(items: Seq<DeviceWithChargeView>)
    ensures
        json_doc(items) == seq!['['] + json_items(items) + seq![']'],
        items.len() == 0 ==> json_items(items) == Seq::<char>::empty(),
        items.len() == 1 ==> json_items(items) == json_device(items[0]),
        items.len() > 1 ==> json_items(items) == json_device(items[0]) + seq![',']
            + json_items(items.drop_first()),
{
}

} // verus!
