//! The content of the interactive viewer's two tabs, as plain values: what
//! the search-result pane and the detail pane show for a given viewer
//! state. The event loop wraps these in widgets; nothing here touches the
//! terminal.

use vstd::prelude::*;
use crate::model::AnimeAttributes;
use crate::render::{aired_range, lemma_views_push, views_of};
use crate::strutil::{dec_rep, usize_to_string};
use crate::viewer::App;

verus! {

/// What the search tab shows: a loading indicator, a help notice, the last
/// search's error, or the selectable list of result labels.
pub enum SearchPane {
    Loading(String),
    Help(String),
    Failed(String),
    Items(Vec<String>),
}

/// What the detail tab shows: a placeholder while nothing is selected, or
/// the selected entry's title, combined info line and synopsis text.
pub enum DetailsPane {
    Empty(String),
    Entry { title: String, info: String, synopsis: String },
}

/// The list label of one entry: its title, then the rating in parentheses
/// when there is one.
pub open spec fn item_label(a: AnimeAttributes) -> Seq<char> {
    a.canonical_title@ + (match a.average_rating {
        Some(r) => " ("@ + r@ + "*)"@,
        None => Seq::<char>::empty(),
    })
}

/// The help notice for an empty result pane: how to start when nothing was
/// searched yet, or a no-match notice after a search.
pub open spec fn help_text(input: Seq<char>) -> Seq<char> {
    if input.len() == 0 {
        "Press 'e' to enter search mode, type your query, and press Enter to search."@
    } else {
        "No results found. Try a different search term."@
    }
}

/// The segments of the detail tab's info line, one per present field, in
/// fixed order: rating, episodes, status, aired range.
pub open spec fn info_segments(a: AnimeAttributes) -> Seq<Seq<char>> {
    (match a.average_rating {
        Some(r) => seq!["Rating: "@ + r@ + "/100"@],
        None => Seq::<Seq<char>>::empty(),
    }) + (match a.episode_count {
        Some(n) => seq!["Episodes: "@ + dec_rep(n as nat)],
        None => Seq::<Seq<char>>::empty(),
    }) + (match a.status {
        Some(s) => seq!["Status: "@ + s@],
        None => Seq::<Seq<char>>::empty(),
    }) + (match a.start_date {
        Some(s) => seq!["Aired: "@ + aired_range(s@, a.end_date)],
        None => Seq::<Seq<char>>::empty(),
    })
}

/// Segments joined by the separator `" | "`.
pub open spec fn joined(parts: Seq<Seq<char>>) -> Seq<char>
    decreases parts.len(),
{
    if parts.len() == 0 {
        Seq::empty()
    } else if parts.len() == 1 {
        parts[0]
    } else {
        joined(parts.drop_last()) + " | "@ + parts.last()
    }
}

/// The detail tab's combined info line.
pub open spec fn info_line(a: AnimeAttributes) -> Seq<char> {
    joined(info_segments(a))
}

/// The detail tab's synopsis text: the synopsis, or a placeholder.
pub open spec fn synopsis_text(a: AnimeAttributes) -> Seq<char> {
    match a.synopsis {
        Some(s) => s@,
        None => "No synopsis available."@,
    }
}

/// Joins already-built segments with `" | "`.
fn join_segments(parts: &Vec<String>) -> (out: String)
    ensures
        out@ == joined(views_of(parts@)),
{
    let mut out = String::new();
    let mut i: usize = 0;
    while i < parts.len()
        invariant
            i <= parts@.len(),
            out@ == joined(views_of(parts@).take(i as int)),
        decreases parts@.len() - i,
    {
        if i > 0 {
            out.append(" | ");
        }
        out.append(parts[i].as_str());
        proof {
            let vs = views_of(parts@);
            assert(vs.take(i + 1).drop_last() =~= vs.take(i as int));
            assert(vs.take(i + 1).last() == vs[i as int]);
            assert(out@ =~= joined(vs.take(i + 1)));
        }
        i = i + 1;
    }
    proof {
        assert(views_of(parts@).take(parts@.len() as int) =~= views_of(parts@));
    }
    out
}

/// What the search tab shows for the given state: the loading indicator
/// while a search is outstanding; else the last error, inline; else a help
/// notice for an empty batch; else one label per result, in order.
pub fn search_pane(app: &App) -> (p: SearchPane)
    ensures
        app.loading ==> (p matches SearchPane::Loading(t) && t@ == "Loading..."@),
        !app.loading && app.last_error is Some ==> (p matches SearchPane::Failed(t) && t@ == (
        app.last_error->Some_0)@),
        !app.loading && app.last_error is None && app.search_results@.len() == 0 ==> (p matches
            SearchPane::Help(t) && t@ == help_text(app.input@)),
        !app.loading && app.last_error is None && app.search_results@.len() > 0 ==> (p matches
            SearchPane::Items(items) && views_of(items@) == app.search_results@.map_values(
            |e: crate::model::AnimeData| item_label(e.attributes),
        )),
{
    if app.loading {
        return SearchPane::Loading(String::from_str("Loading..."));
    }
    if let Some(e) = &app.last_error {
        return SearchPane::Failed(e.clone());
    }
    if app.search_results.len() == 0 {
        let t = if app.input.as_str().is_empty() {
            String::from_str(
                "Press 'e' to enter search mode, type your query, and press Enter to search.",
            )
        } else {
            String::from_str("No results found. Try a different search term.")
        };
        return SearchPane::Help(t);
    }
    let ghost labels = app.search_results@.map_values(
        |e: crate::model::AnimeData| item_label(e.attributes),
    );
    let mut items: Vec<String> = Vec::new();
    let mut i: usize = 0;
    while i < app.search_results.len()
        invariant
            i <= app.search_results@.len(),
            labels == app.search_results@.map_values(
                |e: crate::model::AnimeData| item_label(e.attributes),
            ),
            views_of(items@) == labels.take(i as int),
        decreases app.search_results@.len() - i,
    {
        let a = &app.search_results[i].attributes;
        let mut label = a.canonical_title.clone();
        if let Some(r) = &a.average_rating {
            label.append(" (");
            label.append(r.as_str());
            label.append("*)");
        }
        proof {
            assert(label@ =~= item_label(*a));
            lemma_views_push(items@, label);
        }
        items.push(label);
        proof {
            assert(views_of(items@) =~= labels.take(i + 1));
        }
        i = i + 1;
    }
    proof {
        assert(labels.take(app.search_results@.len() as int) =~= labels);
    }
    SearchPane::Items(items)
}

/// What the detail tab shows for the given state: a placeholder while
/// nothing is selected, else the selected entry's title, info line and
/// synopsis text.
pub fn details_pane(app: &App) -> (p: DetailsPane)
    requires
        app.wf(),
    ensures
        app.selected_anime_index is None ==> (p matches DetailsPane::Empty(t) && t@
            == "No anime selected."@),
        app.selected_anime_index matches Some(i) ==> (p matches DetailsPane::Entry {
            title,
            info,
            synopsis,
        } && title@ == app.search_results@[i as int].attributes.canonical_title@ && info@
            == info_line(app.search_results@[i as int].attributes) && synopsis@ == synopsis_text(
            app.search_results@[i as int].attributes,
        )),
{
    match &app.selected_anime_index {
        None => DetailsPane::Empty(String::from_str("No anime selected.")),
        Some(sel) => {
            let a = &app.search_results[*sel].attributes;
            let title = a.canonical_title.clone();
            let mut parts: Vec<String> = Vec::new();
            let ghost p1: Seq<Seq<char>> = (match &a.average_rating {
                Some(r) => seq!["Rating: "@ + r@ + "/100"@],
                None => Seq::<Seq<char>>::empty(),
            });
            let ghost p2: Seq<Seq<char>> = (match a.episode_count {
                Some(n) => seq!["Episodes: "@ + dec_rep(n as nat)],
                None => Seq::<Seq<char>>::empty(),
            });
            let ghost p3: Seq<Seq<char>> = (match &a.status {
                Some(s) => seq!["Status: "@ + s@],
                None => Seq::<Seq<char>>::empty(),
            });
            let ghost p4: Seq<Seq<char>> = (match &a.start_date {
                Some(s) => seq!["Aired: "@ + aired_range(s@, a.end_date)],
                None => Seq::<Seq<char>>::empty(),
            });
            if let Some(r) = &a.average_rating {
                let mut seg = String::from_str("Rating: ");
                seg.append(r.as_str());
                seg.append("/100");
                proof {
                    lemma_views_push(parts@, seg);
                }
                parts.push(seg);
            }
            proof {
                assert(views_of(parts@) =~= p1);
            }
            if let Some(n) = a.episode_count {
                let mut seg = String::from_str("Episodes: ");
                seg.append(usize_to_string(n as usize).as_str());
                proof {
                    lemma_views_push(parts@, seg);
                }
                parts.push(seg);
            }
            proof {
                assert(views_of(parts@) =~= p1 + p2);
            }
            if let Some(s) = &a.status {
                let mut seg = String::from_str("Status: ");
                seg.append(s.as_str());
                proof {
                    lemma_views_push(parts@, seg);
                }
                parts.push(seg);
            }
            proof {
                assert(views_of(parts@) =~= p1 + p2 + p3);
            }
            if let Some(start) = &a.start_date {
                let mut seg = String::from_str("Aired: ");
                seg.append(start.as_str());
                if let Some(end) = &a.end_date {
                    seg.append(" to ");
                    seg.append(end.as_str());
                } else {
                    seg.append(" to present");
                }
                proof {
                    assert(seg@ =~= "Aired: "@ + aired_range(start@, a.end_date));
                    lemma_views_push(parts@, seg);
                }
                parts.push(seg);
            }
            proof {
                assert(views_of(parts@) =~~= p1 + p2 + p3 + p4);
                assert(views_of(parts@) =~~= info_segments(*a));
            }
            let info = join_segments(&parts);
            let synopsis = match &a.synopsis {
                Some(s) => s.clone(),
                None => String::from_str("No synopsis available."),
            };
            DetailsPane::Entry { title, info, synopsis }
        },
    }
}

} // verus!
