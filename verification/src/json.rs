//! Writing the snapshot of an event as JSON text.
use vstd::prelude::*;
use vstd::string::*;
use crate::models::{Event, EventView};
use crate::text::{i64_to_string, opt_text, signed_decimal};
use crate::trusted::{format_rfc3339, json_quote, json_string_text, rfc3339_text};

verus! {

/// The characters of each present text in a list.
pub open spec fn opt_texts(list: Seq<Option<String>>) -> Seq<Option<Seq<char>>> {
    list.map_values(|s: Option<String>| opt_text(s))
}

/// The characters of each string slice in a list.
pub open spec fn str_texts(list: Seq<&'static str>) -> Seq<Seq<char>> {
    list.map_values(|s: &'static str| s@)
}

/// One member of an object: the key in quotes, a colon, the value.
pub open spec fn json_member(key: Seq<char>, value: Seq<char>) -> Seq<char> {
    "\""@ + key + "\":"@ + value
}

/// The first `n` members of an object, separated by commas. A value that is
/// absent is written as nothing.
pub open spec fn json_members(keys: Seq<Seq<char>>, values: Seq<Option<Seq<char>>>, n: nat) -> Seq<char>
    decreases n,
{
    if n == 0 {
        Seq::<char>::empty()
    } else {
        let value = match values[n - 1] {
            Some(v) => v,
            None => Seq::<char>::empty(),
        };
        if n == 1 {
            json_member(keys[0], value)
        } else {
            json_members(keys, values, (n - 1) as nat) + ","@ + json_member(keys[n - 1], value)
        }
    }
}

/// Whether every value of a list is present.
pub open spec fn all_present(values: Seq<Option<Seq<char>>>) -> bool {
    forall|i: int| 0 <= i < values.len() ==> (#[trigger] values[i]) is Some
}

/// The JSON object with the given keys and values, in their order; `None`
/// where a value is absent.
pub open spec fn json_object(keys: Seq<Seq<char>>, values: Seq<Option<Seq<char>>>) -> Option<Seq<char>> {
    if all_present(values) {
        Some("{"@ + json_members(keys, values, keys.len()) + "}"@)
    } else {
        None
    }
}

/// Writes the JSON object with the given keys and values.
pub fn write_json_object(keys: &Vec<&'static str>, values: &Vec<Option<String>>) -> (text: Option<String>)
    requires
        keys.len() == values.len(),
    ensures
        opt_text(text) == json_object(str_texts(keys@), opt_texts(values@)),
{
    let ghost ks = str_texts(keys@);
    let ghost vs = opt_texts(values@);
    let mut out = "{".to_string();
    let mut i: usize = 0;
    while i < keys.len()
        invariant
            i <= keys.len(),
            keys.len() == values.len(),
            ks == str_texts(keys@),
            vs == opt_texts(values@),
            forall|j: int| 0 <= j < i ==> (#[trigger] vs[j]) is Some,
            out@ == "{"@ + json_members(ks, vs, i as nat),
        decreases keys.len() - i,
    {
        let value = match &values[i] {
            Some(value) => value,
            None => {
                assert(vs[i as int] is None);
                return None;
            },
        };
        assert(vs[i as int] == Some(value@));
        assert(ks[i as int] == keys@[i as int]@);
        let ghost before = out@;
        if i > 0 {
            out.append(",");
        }
        out.append("\"");
        out.append(keys[i]);
        out.append("\":");
        out.append(value.as_str());
        proof {
            let member = json_member(ks[i as int], value@);
            if i > 0 {
                assert(out@ =~= before + ","@ + member);
                assert(out@ =~= "{"@ + (json_members(ks, vs, i as nat) + ","@ + member));
            } else {
                assert(out@ =~= before + member);
                assert(json_members(ks, vs, 0) =~= Seq::<char>::empty());
                assert(out@ =~= "{"@ + member);
            }
        }
        i = i + 1;
    }
    out.append("}");
    Some(out)
}

/// The JSON text of an optional text: `null` where it is absent.
pub open spec fn json_opt_string(o: Option<Seq<char>>) -> Option<Seq<char>> {
    match o {
        Some(s) => json_string_text(s),
        None => Some("null"@),
    }
}

/// The JSON text of an instant: its RFC 3339 notation as a string.
pub open spec fn json_instant(micros: i64) -> Option<Seq<char>> {
    match rfc3339_text(micros) {
        Some(s) => json_string_text(s),
        None => None,
    }
}

/// The JSON text of an optional instant: `null` where it is absent.
pub open spec fn json_opt_instant(o: Option<i64>) -> Option<Seq<char>> {
    match o {
        Some(t) => json_instant(t),
        None => Some("null"@),
    }
}

pub open spec fn json_bool(b: bool) -> Seq<char> {
    if b {
        "true"@
    } else {
        "false"@
    }
}

fn write_opt_string(o: &Option<String>) -> (text: Option<String>)
    ensures
        opt_text(text) == json_opt_string(opt_text(*o)),
{
    match o {
        Some(s) => json_quote(s.as_str()),
        None => Some("null".to_string()),
    }
}

fn write_instant(micros: i64) -> (text: Option<String>)
    ensures
        opt_text(text) == json_instant(micros),
{
    match format_rfc3339(micros) {
        Some(s) => json_quote(s.as_str()),
        None => None,
    }
}

fn write_opt_instant(o: Option<i64>) -> (text: Option<String>)
    ensures
        opt_text(text) == json_opt_instant(o),
{
    match o {
        Some(t) => write_instant(t),
        None => Some("null".to_string()),
    }
}

fn write_bool(b: bool) -> (text: Option<String>)
    ensures
        opt_text(text) == Some(json_bool(b)),
{
    if b {
        Some("true".to_string())
    } else {
        Some("false".to_string())
    }
}

/// The keys of the snapshot of an event.
pub open spec fn event_keys() -> Seq<Seq<char>> {
    seq![
        "id"@,
        "organizer_id"@,
        "title_de"@,
        "title_en"@,
        "description_de"@,
        "description_en"@,
        "start_date_time"@,
        "end_date_time"@,
        "event_url"@,
        "location"@,
        "publish_app"@,
        "publish_newsletter"@,
        "publish_in_ical"@,
        "publish_web"@,
        "created_at"@,
        "updated_at"@,
    ]
}

/// The values of the snapshot of an event, as JSON texts.
pub open spec fn event_values(e: EventView) -> Seq<Option<Seq<char>>> {
    seq![
        Some(signed_decimal(e.id as int)),
        Some(signed_decimal(e.organizer_id as int)),
        json_string_text(e.title_de),
        json_string_text(e.title_en),
        json_opt_string(e.description_de),
        json_opt_string(e.description_en),
        json_instant(e.start_date_time),
        json_opt_instant(e.end_date_time),
        json_opt_string(e.event_url),
        json_opt_string(e.location),
        Some(json_bool(e.publish_app)),
        Some(json_bool(e.publish_newsletter)),
        Some(json_bool(e.publish_in_ical)),
        Some(json_bool(e.publish_web)),
        json_instant(e.created_at),
        json_instant(e.updated_at),
    ]
}

/// The snapshot of an event: a JSON object with one member for each field, in
/// the order of the fields. There is none where an instant of the event lies
/// outside the calendar.
pub open spec fn event_json(e: EventView) -> Option<Seq<char>> {
    json_object(event_keys(), event_values(e))
}

/// Writes the snapshot of an event.
pub fn event_snapshot(e: &Event) -> (text: Option<String>)
    ensures
        opt_text(text) == event_json(e@),
{
    let mut keys: Vec<&'static str> = Vec::new();
    keys.push("id");
    keys.push("organizer_id");
    keys.push("title_de");
    keys.push("title_en");
    keys.push("description_de");
    keys.push("description_en");
    keys.push("start_date_time");
    keys.push("end_date_time");
    keys.push("event_url");
    keys.push("location");
    keys.push("publish_app");
    keys.push("publish_newsletter");
    keys.push("publish_in_ical");
    keys.push("publish_web");
    keys.push("created_at");
    keys.push("updated_at");
    let mut values: Vec<Option<String>> = Vec::new();
    values.push(Some(i64_to_string(e.id)));
    values.push(Some(i64_to_string(e.organizer_id)));
    values.push(json_quote(e.title_de.as_str()));
    values.push(json_quote(e.title_en.as_str()));
    values.push(write_opt_string(&e.description_de));
    values.push(write_opt_string(&e.description_en));
    values.push(write_instant(e.start_date_time));
    values.push(write_opt_instant(e.end_date_time));
    values.push(write_opt_string(&e.event_url));
    values.push(write_opt_string(&e.location));
    values.push(write_bool(e.publish_app));
    values.push(write_bool(e.publish_newsletter));
    values.push(write_bool(e.publish_in_ical));
    values.push(write_bool(e.publish_web));
    values.push(write_instant(e.created_at));
    values.push(write_instant(e.updated_at));
    assert(str_texts(keys@) =~= event_keys());
    assert(opt_texts(values@) =~= event_values(e@));
    write_json_object(&keys, &values)
}

} // verus!
