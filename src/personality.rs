//! The persona that prefixes every request to the model.
use vstd::prelude::*;
use vstd::string::*;

verus! {

/// How the persona speaks.
#[derive(Debug)]
pub struct Style {
    pub tone: String,
    pub formality: String,
    pub domain_focus: Vec<String>,
}

/// Who the assistant presents itself as, and the rules it keeps.
#[derive(Debug)]
pub struct Personality {
    pub name: String,
    pub role: String,
    pub style: Style,
    pub rules: Vec<String>,
}

/// The texts of a list of strings.
pub open spec fn views(v: Seq<String>) -> Seq<Seq<char>> {
    v.map_values(|s: String| s@)
}

/// Parts joined with a separator between each two.
pub open spec fn join(parts: Seq<Seq<char>>, sep: Seq<char>) -> Seq<char>
    decreases parts.len(),
{
    if parts.len() == 0 {
        Seq::empty()
    } else if parts.len() == 1 {
        parts[0]
    } else {
        join(parts.drop_last(), sep) + sep + parts.last()
    }
}

/// Each part as a list item, `- ` before it.
pub open spec fn bullets(parts: Seq<Seq<char>>) -> Seq<Seq<char>> {
    parts.map_values(|p: Seq<char>| "- "@ + p)
}

/// Joins strings with a separator.
pub fn join_strings(parts: &Vec<String>, sep: &str) -> (r: String)
    ensures
        r@ == join(views(parts@), sep@),
{
    let mut r = String::new();
    let mut i: usize = 0;
    while i < parts.len()
        invariant
            i <= parts@.len(),
            r@ == join(views(parts@.take(i as int)), sep@),
        decreases parts.len() - i,
    {
        proof {
            assert(views(parts@.take(i + 1)).drop_last() =~= views(parts@.take(i as int)));
            assert(views(parts@.take(i + 1)).last() == parts@[i as int]@);
        }
        if i > 0 {
            r.append(sep);
        } else {
            assert(views(parts@.take(0)) =~= Seq::<Seq<char>>::empty());
        }
        r.append(parts[i].as_str());
        i = i + 1;
    }
    assert(parts@.take(parts@.len() as int) =~= parts@);
    r
}

/// Prefixes each string with `- `.
pub fn bullet_list(parts: &Vec<String>) -> (r: Vec<String>)
    ensures
        views(r@) == bullets(views(parts@)),
{
    let mut r: Vec<String> = Vec::new();
    let mut i: usize = 0;
    while i < parts.len()
        invariant
            i <= parts@.len(),
            views(r@) == bullets(views(parts@.take(i as int))),
        decreases parts.len() - i,
    {
        let mut item = String::from_str("- ");
        item.append(parts[i].as_str());
        let ghost before = r@;
        let ghost it = item@;
        r.push(item);
        proof {
            assert(r@ == before.push(r@.last()));
            assert(r@.last()@ == it);
            assert(views(r@) =~= views(before).push(it));
            assert(views(parts@.take(i + 1)) =~= views(parts@.take(i as int)).push(parts@[i as int]@));
        }
        i = i + 1;
        assert(views(r@) =~= bullets(views(parts@.take(i as int))));
    }
    assert(parts@.take(parts@.len() as int) =~= parts@);
    r
}

/// The persona part of the system prompt.
pub open spec fn persona_text(p: Personality) -> Seq<char> {
    "You are "@ + p.name@ + ", "@ + p.role@ + ". \n\nStyle: \n- Tone: "@ + p.style.tone@
        + " \n- Formality: "@ + p.style.formality@ + " \n- Domain Focus: "@
        + join(views(p.style.domain_focus@), ", "@) + " \n\nRules: \n"@ + join(bullets(views(p.rules@)), "\n"@)
}

/// Writes the persona part of the system prompt.
pub fn persona_prompt(p: &Personality) -> (r: String)
    ensures
        r@ == persona_text(*p),
{
    let mut r = String::from_str("You are ");
    r.append(p.name.as_str());
    r.append(", ");
    r.append(p.role.as_str());
    r.append(". \n\nStyle: \n- Tone: ");
    r.append(p.style.tone.as_str());
    r.append(" \n- Formality: ");
    r.append(p.style.formality.as_str());
    r.append(" \n- Domain Focus: ");
    let d = join_strings(&p.style.domain_focus, ", ");
    r.append(d.as_str());
    r.append(" \n\nRules: \n");
    let b = bullet_list(&p.rules);
    let rules = join_strings(&b, "\n");
    r.append(rules.as_str());
    r
}

} // verus!
