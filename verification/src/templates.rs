//! The template commands' decisions: finding and filtering project
//! templates and resolving the selection prompt's answer. The HTTP
//! fetch of the catalogue stays with the caller.

use vstd::prelude::*;
use vstd::string::StringExecFns;

use crate::error::ErrorValue;
use crate::human::lines_view;
use crate::model::{GithubTemplate, ProjectLanguage};

verus! {

broadcast use vstd::std_specs::vec::group_vec_axioms;

/// The templates written for one language, in their listed order.
pub open spec fn templates_for(ts: Seq<GithubTemplate>, l: ProjectLanguage) -> Seq<GithubTemplate> {
    ts.filter(|t: GithubTemplate| t.language == l)
}

/// The templates a language filter keeps: all of them with no filter.
pub open spec fn selected_templates(
    language: Option<ProjectLanguage>,
    ts: Seq<GithubTemplate>,
) -> Seq<GithubTemplate> {
    match language {
        Some(l) => templates_for(ts, l),
        None => ts,
    }
}

/// The error reported when a template filter keeps nothing.
pub open spec fn is_no_templates_error(e: ErrorValue) -> bool {
    &&& e matches ErrorValue::Unclassified { message }
    &&& message@ == "No templates matched the provided filters"@
}

/// The error reported when the template prompt was dismissed.
pub open spec fn is_no_selection_error(e: ErrorValue) -> bool {
    &&& e matches ErrorValue::Unclassified { message }
    &&& message@ == "No template selected"@
}

/// Rejects an empty list of values; hands a non-empty one back
/// unchanged.
pub fn error_if_empty<T>(values: Vec<T>) -> (r: Result<Vec<T>, ErrorValue>)
    ensures
        values@.len() > 0 ==> (r matches Ok(v) && v == values),
        values@.len() == 0 ==> (r matches Err(e) && is_no_templates_error(e)),
{
    if values.len() == 0 {
        Err(
            ErrorValue::Unclassified {
                message: String::from_str("No templates matched the provided filters"),
            },
        )
    } else {
        Ok(values)
    }
}

/// The first template whose id is `template_id`, if the list holds one.
pub fn get_template(template_id: &str, templates: Vec<GithubTemplate>) -> (r: Option<
    GithubTemplate,
>)
    ensures
        r matches Some(t) ==> exists|j: int|
            0 <= j < templates@.len() && templates@[j] == t && t.id@ == template_id@ && (forall|
                k: int,
            |
                0 <= k < j ==> (#[trigger] templates@[k]).id@ != template_id@),
        r is None ==> forall|k: int|
            0 <= k < templates@.len() ==> (#[trigger] templates@[k]).id@ != template_id@,
{
    let id_owned = String::from_str(template_id);
    let mut ts = templates;
    let mut i: usize = 0;
    while i < ts.len()
        invariant
            ts == templates,
            i <= templates@.len(),
            id_owned@ == template_id@,
            forall|k: int| 0 <= k < i ==> (#[trigger] templates@[k]).id@ != template_id@,
        decreases templates@.len() - i,
    {
        if ts[i].id == id_owned {
            let ghost j = i as int;
            let t = ts.remove(i);
            proof {
                assert(templates@[j] == t && t.id@ == template_id@);
            }
            return Some(t);
        }
        i = i + 1;
    }
    None
}

/// The templates written for `language`; an error when there are none.
pub fn get_templates_for_language(
    language: ProjectLanguage,
    templates: Vec<GithubTemplate>,
) -> (r: Result<Vec<GithubTemplate>, ErrorValue>)
    ensures
        templates_for(templates@, language).len() > 0 ==> (r matches Ok(v) && v@ == templates_for(
            templates@,
            language,
        )),
        templates_for(templates@, language).len() == 0 ==> (r matches Err(e)
            && is_no_templates_error(e)),
{
    let mut remaining = templates;
    let mut kept: Vec<GithubTemplate> = Vec::new();
    let mut i: usize = 0;
    let ghost all = remaining@;
    proof {
        assert(all.len() <= usize::MAX) by {
            assert(remaining.len() == all.len());
        }
    }
    while remaining.len() > 0
        invariant
            all == templates@,
            all.len() <= usize::MAX,
            i <= all.len(),
            remaining@ =~= all.skip(i as int),
            kept@ == templates_for(all.take(i as int), language),
        decreases remaining@.len(),
    {
        let t = remaining.remove(0);
        proof {
            assert(t == all[i as int]);
            assert(all.take(i + 1).drop_last() =~= all.take(i as int));
            assert(all.take(i + 1).last() == all[i as int]);
            reveal(Seq::filter);
            assert(remaining@ =~= all.skip(i + 1));
        }
        if t.language == language {
            kept.push(t);
        }
        proof {
            assert(kept@ =~= templates_for(all.take(i + 1), language));
        }
        i = i + 1;
    }
    proof {
        assert(all.take(all.len() as int) =~= all);
    }
    error_if_empty(kept)
}

/// The templates a language filter keeps, over the whole catalogue when
/// no filter was given; an error when nothing is kept.
pub fn list_templates(
    language: Option<ProjectLanguage>,
    templates: Vec<GithubTemplate>,
) -> (r: Result<Vec<GithubTemplate>, ErrorValue>)
    ensures
        selected_templates(language, templates@).len() > 0 ==> (r matches Ok(v) && v@
            == selected_templates(language, templates@)),
        selected_templates(language, templates@).len() == 0 ==> (r matches Err(e)
            && is_no_templates_error(e)),
{
    match language {
        Some(l) => get_templates_for_language(l, templates),
        None => error_if_empty(templates),
    }
}

/// Resolves a prompt's answer: the chosen template, or an error when
/// the prompt was dismissed or the index is out of range.
pub fn select_template(templates: Vec<GithubTemplate>, selection: Option<usize>) -> (r: Result<
    GithubTemplate,
    ErrorValue,
>)
    ensures
        (selection matches Some(i) && i < templates@.len()) ==> (r matches Ok(t) && t
            == templates@[selection->0 as int]),
        (match selection {
            Some(i) => i >= templates@.len(),
            None => true,
        }) ==> (r matches Err(e) && is_no_selection_error(e)),
{
    match selection {
        Some(i) => {
            if i < templates.len() {
                let mut ts = templates;
                Ok(ts.remove(i))
            } else {
                Err(ErrorValue::Unclassified { message: String::from_str("No template selected") })
            }
        },
        None => Err(ErrorValue::Unclassified { message: String::from_str("No template selected") }),
    }
}

/// The display names of the templates, in order, for a prompt to show.
pub fn template_display_names(templates: &Vec<GithubTemplate>) -> (r: Vec<String>)
    ensures
        lines_view(r@) == templates@.map_values(|t: GithubTemplate| t.display@),
{
    let mut names: Vec<String> = Vec::new();
    let mut i: usize = 0;
    while i < templates.len()
        invariant
            i <= templates@.len(),
            names@.len() == i,
            forall|k: int| 0 <= k < i ==> (#[trigger] names@[k])@ == templates@[k].display@,
        decreases templates@.len() - i,
    {
        names.push(templates[i].display.clone());
        i = i + 1;
    }
    proof {
        assert(lines_view(names@) =~= templates@.map_values(|t: GithubTemplate| t.display@));
    }
    names
}

/// The templates service endpoint: an override when the environment
/// gives one, the well-known default otherwise.
pub fn templates_endpoint(env_value: Option<String>) -> (r: String)
    ensures
        r@ == match env_value {
            Some(u) => u@,
            None => "https://apollo-templates.up.railway.app"@,
        },
{
    match env_value {
        Some(u) => u,
        None => String::from_str("https://apollo-templates.up.railway.app"),
    }
}

} // verus!
