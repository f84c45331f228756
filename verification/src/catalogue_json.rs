//! The tool catalogue written as JSON text, in the shape MCP clients read:
//! a list of `{"name", "description", "inputSchema"}` objects whose input
//! schema is a JSON Schema object.

use vstd::prelude::*;
use crate::schema::{
    params_view, texts_view, ParamDef, ParamDefView, ParamKind, ParamKindView, ToolDef, ToolDefView,
};
use crate::text::{decimal, hex_char, push_decimal, push_hex_digit};

verus! {

/// How a character is written inside a JSON string: quote and backslash
/// after a backslash, control characters as `\u00XX`, others as they are.
pub open spec fn escape_char(c: char) -> Seq<char> {
    if c == '"' {
        seq!['\\', '"']
    } else if c == '\\' {
        seq!['\\', '\\']
    } else if (c as nat) < 0x20 {
        seq!['\\', 'u', '0', '0', hex_char((c as nat) / 16), hex_char((c as nat) % 16)]
    } else {
        seq![c]
    }
}

/// The characters of a text, escaped for a JSON string.
pub open spec fn escape(s: Seq<char>) -> Seq<char>
    decreases s.len(),
{
    if s.len() == 0 {
        Seq::empty()
    } else {
        escape(s.drop_last()) + escape_char(s.last())
    }
}

/// A text as a JSON string.
pub open spec fn json_string(s: Seq<char>) -> Seq<char> {
    "\""@ + escape(s) + "\""@
}

/// JSON texts separated by commas.
pub open spec fn join(items: Seq<Seq<char>>) -> Seq<char>
    decreases items.len(),
{
    if items.len() == 0 {
        Seq::empty()
    } else if items.len() == 1 {
        items[0]
    } else {
        join(items.drop_last()) + ","@ + items.last()
    }
}

/// A list of texts as a JSON array of strings.
pub open spec fn string_array(items: Seq<Seq<char>>) -> Seq<char> {
    "["@ + join(items.map_values(|s: Seq<char>| json_string(s))) + "]"@
}

/// The JSON Schema of a parameter type.
pub open spec fn param_json(kind: ParamKindView) -> Seq<char> {
    match kind {
        ParamKindView::Text => "{\"type\":\"string\"}"@,
        ParamKindView::Number(d) => "{\"type\":\"number\",\"default\":"@ + decimal(d as nat) + "}"@,
        ParamKindView::TextDefault(d) => "{\"type\":\"string\",\"default\":"@ + json_string(d) + "}"@,
        ParamKindView::TextChoice(v) => "{\"type\":\"string\",\"enum\":"@ + string_array(v) + "}"@,
        ParamKindView::TextChoiceDefault(v, d) => "{\"type\":\"string\",\"enum\":"@ + string_array(v)
            + ",\"default\":"@ + json_string(d) + "}"@,
        ParamKindView::TextList => "{\"type\":\"array\",\"items\":{\"type\":\"string\"}}"@,
    }
}

/// One member of the `properties` object: a parameter's name and schema.
pub open spec fn property_json(p: ParamDefView) -> Seq<char> {
    json_string(p.name) + ":"@ + param_json(p.kind)
}

/// The `properties` object of a tool's input schema.
pub open spec fn properties_json(params: Seq<ParamDefView>) -> Seq<char> {
    "{"@ + join(params.map_values(|p: ParamDefView| property_json(p))) + "}"@
}

/// A tool as a JSON object; `required` is there only where the tool has
/// required parameters.
pub open spec fn tool_json_spec(d: ToolDefView) -> Seq<char> {
    let head = "{\"name\":"@ + json_string(d.name) + ",\"description\":"@ + json_string(
        d.description,
    ) + ",\"inputSchema\":{\"type\":\"object\",\"properties\":"@ + properties_json(d.params);
    if d.required.len() == 0 {
        head + "}}"@
    } else {
        head + ",\"required\":"@ + string_array(d.required) + "}}"@
    }
}

/// A list of tools as a JSON array.
pub open spec fn catalogue_json_spec(defs: Seq<ToolDefView>) -> Seq<char> {
    "["@ + join(defs.map_values(|d: ToolDefView| tool_json_spec(d))) + "]"@
}

proof fn lemma_join_step(items: Seq<Seq<char>>, i: int)
    requires
        0 <= i < items.len(),
    ensures
        join(items.take(i + 1)) == if i == 0 {
            items[0]
        } else {
            join(items.take(i)) + ","@ + items[i]
        },
{
    assert(items.take(i + 1).drop_last() =~= items.take(i));
}

fn push_escaped(out: &mut String, s: &str)
    ensures
        final(out)@ == old(out)@ + escape(s@),
{
    let n = s.unicode_len();
    let ghost start = out@;
    let mut i: usize = 0;
    while i < n
        invariant
            n == s@.len(),
            i <= n,
            out@ == start + escape(s@.subrange(0, i as int)),
        decreases n - i,
    {
        let c = s.get_char(i);
        let ghost before = out@;
        if c == '"' {
            out.append("\\\"");
            proof {
                reveal_strlit("\\\"");
            }
        } else if c == '\\' {
            out.append("\\\\");
            proof {
                reveal_strlit("\\\\");
            }
        } else if (c as u32) < 0x20 {
            out.append("\\u00");
            proof {
                reveal_strlit("\\u00");
            }
            push_hex_digit(out, (c as u32) / 16);
            push_hex_digit(out, (c as u32) % 16);
        } else {
            out.append(s.substring_char(i, i + 1));
            assert(s@.subrange(i as int, i + 1) =~= seq![c]);
        }
        assert(out@ =~= before + escape_char(c));
        let ghost prefix = s@.subrange(0, i + 1);
        assert(prefix.drop_last() =~= s@.subrange(0, i as int));
        assert(prefix.last() == c);
        i = i + 1;
    }
    assert(s@.subrange(0, n as int) =~= s@);
}

fn push_json_string(out: &mut String, s: &str)
    ensures
        final(out)@ == old(out)@ + json_string(s@),
{
    let ghost start = out@;
    out.append("\"");
    push_escaped(out, s);
    out.append("\"");
    assert(out@ =~= start + json_string(s@));
}

fn string_array_json(v: &Vec<String>) -> (r: String)
    ensures
        r@ == string_array(texts_view(v@)),
{
    let ghost items = texts_view(v@).map_values(|s: Seq<char>| json_string(s));
    let mut r = String::from_str("[");
    let mut i: usize = 0;
    while i < v.len()
        invariant
            i <= v@.len(),
            items == texts_view(v@).map_values(|s: Seq<char>| json_string(s)),
            r@ == "["@ + join(items.take(i as int)),
        decreases v@.len() - i,
    {
        proof {
            lemma_join_step(items, i as int);
        }
        if i > 0 {
            r.append(",");
        }
        push_json_string(&mut r, v[i].as_str());
        assert(r@ =~= "["@ + join(items.take(i + 1)));
        i = i + 1;
    }
    assert(items.take(v@.len() as int) =~= items);
    r.append("]");
    r
}

fn param_json_text(kind: &ParamKind) -> (r: String)
    ensures
        r@ == param_json(kind@),
{
    match kind {
        ParamKind::Text => String::from_str("{\"type\":\"string\"}"),
        ParamKind::Number(d) => {
            let mut r = String::from_str("{\"type\":\"number\",\"default\":");
            push_decimal(&mut r, *d);
            r.append("}");
            r
        },
        ParamKind::TextDefault(d) => {
            let mut r = String::from_str("{\"type\":\"string\",\"default\":");
            push_json_string(&mut r, d.as_str());
            r.append("}");
            r
        },
        ParamKind::TextChoice(v) => {
            let mut r = String::from_str("{\"type\":\"string\",\"enum\":");
            r.append(string_array_json(v).as_str());
            r.append("}");
            r
        },
        ParamKind::TextChoiceDefault(v, d) => {
            let mut r = String::from_str("{\"type\":\"string\",\"enum\":");
            r.append(string_array_json(v).as_str());
            r.append(",\"default\":");
            push_json_string(&mut r, d.as_str());
            r.append("}");
            r
        },
        ParamKind::TextList => String::from_str("{\"type\":\"array\",\"items\":{\"type\":\"string\"}}"),
    }
}

fn properties_json_text(params: &Vec<ParamDef>) -> (r: String)
    ensures
        r@ == properties_json(params_view(params@)),
{
    let ghost items = params_view(params@).map_values(|p: ParamDefView| property_json(p));
    let mut r = String::from_str("{");
    let mut i: usize = 0;
    while i < params.len()
        invariant
            i <= params@.len(),
            items == params_view(params@).map_values(|p: ParamDefView| property_json(p)),
            r@ == "{"@ + join(items.take(i as int)),
        decreases params@.len() - i,
    {
        proof {
            lemma_join_step(items, i as int);
        }
        if i > 0 {
            r.append(",");
        }
        let ghost before = r@;
        push_json_string(&mut r, params[i].name.as_str());
        r.append(":");
        r.append(param_json_text(&params[i].kind).as_str());
        assert(items[i as int] == property_json(params@[i as int]@));
        assert(r@ =~= before + property_json(params@[i as int]@));
        assert(r@ =~= "{"@ + join(items.take(i + 1)));
        i = i + 1;
    }
    assert(items.take(params@.len() as int) =~= items);
    r.append("}");
    r
}

/// A tool as a JSON object.
pub fn tool_json(d: &ToolDef) -> (r: String)
    ensures
        r@ == tool_json_spec(d@),
{
    let mut r = String::from_str("{\"name\":");
    push_json_string(&mut r, d.name.as_str());
    r.append(",\"description\":");
    push_json_string(&mut r, d.description.as_str());
    r.append(",\"inputSchema\":{\"type\":\"object\",\"properties\":");
    r.append(properties_json_text(&d.params).as_str());
    if d.required.len() == 0 {
        r.append("}}");
    } else {
        r.append(",\"required\":");
        r.append(string_array_json(&d.required).as_str());
        r.append("}}");
    }
    r
}

/// A list of tools as a JSON array.
pub fn catalogue_json(defs: &Vec<ToolDef>) -> (r: String)
    ensures
        r@ == catalogue_json_spec(defs@.map_values(|d: ToolDef| d@)),
{
    let ghost views = defs@.map_values(|d: ToolDef| d@);
    let ghost items = views.map_values(|d: ToolDefView| tool_json_spec(d));
    let mut r = String::from_str("[");
    let mut i: usize = 0;
    while i < defs.len()
        invariant
            i <= defs@.len(),
            views == defs@.map_values(|d: ToolDef| d@),
            items == views.map_values(|d: ToolDefView| tool_json_spec(d)),
            r@ == "["@ + join(items.take(i as int)),
        decreases defs@.len() - i,
    {
        proof {
            lemma_join_step(items, i as int);
        }
        if i > 0 {
            r.append(",");
        }
        let ghost before = r@;
        r.append(tool_json(&defs[i]).as_str());
        assert(items[i as int] == tool_json_spec(defs@[i as int]@));
        assert(r@ =~= "["@ + join(items.take(i + 1)));
        i = i + 1;
    }
    assert(items.take(defs@.len() as int) =~= items);
    r.append("]");
    r
}

} // verus!
