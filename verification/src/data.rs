//! Checks on the data of a compartment before it is taken up.

use vstd::prelude::*;
use crate::ui_util::{csv_separator, format_as_csv, join_spec, texts_of};

verus! {

/// Whether no text occurs twice in a list.
pub open spec fn nothing_twice(texts: Seq<Seq<char>>) -> bool {
    forall|i: int, j: int| 0 <= i < j < texts.len() ==> texts[i] != texts[j]
}

/// The texts that occur more than once in a list, each named once, in the
/// order in which each is seen for the second time.
pub open spec fn duplicates_spec(texts: Seq<Seq<char>>) -> Seq<Seq<char>>
    decreases texts.len(),
{
    if texts.len() == 0 {
        Seq::<Seq<char>>::empty()
    } else {
        let before = texts.drop_last();
        let found = duplicates_spec(before);
        if before.contains(texts.last()) && !found.contains(texts.last()) {
            found.push(texts.last())
        } else {
            found
        }
    }
}

/// What is said of a list that names something twice.
pub open spec fn duplicate_message(list_label: Seq<char>, texts: Seq<Seq<char>>) -> Seq<char> {
    "Found the following duplicate "@ + list_label + ": "@ + join_spec(
        duplicates_spec(texts),
        csv_separator(),
    )
}

/// A list names something twice exactly if it has duplicates.
pub proof fn lemma_duplicates_empty_iff_nothing_twice(texts: Seq<Seq<char>>)
    ensures
        duplicates_spec(texts).len() == 0 <==> nothing_twice(texts),
    decreases texts.len(),
{
    if texts.len() > 0 {
        let before = texts.drop_last();
        let last = texts.last();
        lemma_duplicates_empty_iff_nothing_twice(before);
        if nothing_twice(texts) {
            assert forall|i: int, j: int| 0 <= i < j < before.len() implies before[i]
                != before[j] by {
                assert(texts[i] != texts[j]);
            }
            if before.contains(last) {
                let k = choose|k: int| 0 <= k < before.len() && before[k] == last;
                assert(texts[k] != texts[texts.len() - 1]);
            }
        }
        if duplicates_spec(texts).len() == 0 {
            assert(duplicates_spec(before).len() == 0);
            assert(!before.contains(last));
            assert forall|i: int, j: int| 0 <= i < j < texts.len() implies texts[i]
                != texts[j] by {
                if j < before.len() {
                    assert(before[i] != before[j]);
                } else {
                    if texts[i] == texts[j] {
                        assert(before[i] == last);
                        assert(before.contains(last));
                    }
                }
            }
        }
    }
}

/// Whether one of the first `upto` strings of a list has the given text.
fn holds(list: &Vec<String>, upto: usize, text: &String) -> (r: bool)
    requires
        upto <= list.len(),
    ensures
        r == texts_of(list@).take(upto as int).contains(text@),
{
    let mut k: usize = 0;
    while k < upto
        invariant
            k <= upto <= list.len(),
            forall|m: int| 0 <= m < k ==> list[m]@ != text@,
        decreases upto - k,
    {
        if list[k] == *text {
            assert(texts_of(list@).take(upto as int)[k as int] == text@);
            return true;
        }
        k += 1;
    }
    assert forall|m: int| 0 <= m < upto implies texts_of(list@).take(upto as int)[m]
        != text@ by {
        assert(list[m]@ != text@);
    }
    false
}

/// Makes sure that a list names nothing twice. If it does, the error names
/// the list and each thing that it names more than once.
pub fn ensure_no_duplicate(list_label: &str, items: &Vec<String>) -> (r: Result<(), String>)
    ensures
        r is Ok <==> nothing_twice(texts_of(items@)),
        r is Err ==> r->Err_0@ == duplicate_message(list_label@, texts_of(items@)),
{
    let mut duplicates: Vec<String> = Vec::new();
    let mut i: usize = 0;
    assert(texts_of(duplicates@) =~= duplicates_spec(texts_of(items@).take(0)));
    while i < items.len()
        invariant
            i <= items.len(),
            texts_of(duplicates@) == duplicates_spec(texts_of(items@).take(i as int)),
        decreases items.len() - i,
    {
        let ghost before = texts_of(items@).take(i as int);
        let ghost upto = texts_of(items@).take(i + 1);
        let ghost found = texts_of(duplicates@);
        proof {
            assert(upto.drop_last() =~= before);
            assert(upto.last() == items[i as int]@);
            assert(texts_of(duplicates@).take(duplicates.len() as int) =~= found);
        }
        let seen_before = holds(items, i, &items[i]);
        let found_before = holds(&duplicates, duplicates.len(), &items[i]);
        if seen_before && !found_before {
            duplicates.push(items[i].clone());
            assert(texts_of(duplicates@) =~= found.push(items[i as int]@));
        }
        i += 1;
    }
    proof {
        assert(texts_of(items@).take(items.len() as int) =~= texts_of(items@));
        lemma_duplicates_empty_iff_nothing_twice(texts_of(items@));
    }
    if duplicates.len() == 0 {
        Ok(())
    } else {
        let mut s = "Found the following duplicate ".to_owned();
        s.append(list_label);
        s.append(": ");
        let list = format_as_csv(&duplicates);
        s.append(list.as_str());
        Err(s)
    }
}

/// The texts that are there in a list of optional texts.
pub open spec fn present_texts(items: Seq<Option<String>>) -> Seq<Seq<char>>
    decreases items.len(),
{
    if items.len() == 0 {
        Seq::<Seq<char>>::empty()
    } else {
        match items.last() {
            Some(text) => present_texts(items.drop_last()).push(text@),
            None => present_texts(items.drop_last()),
        }
    }
}

/// The texts of a list that are not empty.
pub open spec fn non_empty_texts(items: Seq<String>) -> Seq<Seq<char>>
    decreases items.len(),
{
    if items.len() == 0 {
        Seq::<Seq<char>>::empty()
    } else if items.last()@.len() == 0 {
        non_empty_texts(items.drop_last())
    } else {
        non_empty_texts(items.drop_last()).push(items.last()@)
    }
}

fn collect_present(items: &Vec<Option<String>>) -> (r: Vec<String>)
    ensures
        texts_of(r@) == present_texts(items@),
{
    let mut result: Vec<String> = Vec::new();
    let mut i: usize = 0;
    assert(texts_of(result@) =~= present_texts(items@.take(0)));
    while i < items.len()
        invariant
            i <= items.len(),
            texts_of(result@) == present_texts(items@.take(i as int)),
        decreases items.len() - i,
    {
        let ghost found = texts_of(result@);
        proof {
            assert(items@.take(i + 1).drop_last() =~= items@.take(i as int));
            assert(items@.take(i + 1).last() == items[i as int]);
        }
        match &items[i] {
            Some(text) => {
                result.push(text.clone());
                assert(texts_of(result@) =~= found.push(text@));
            },
            None => {},
        }
        i += 1;
    }
    assert(items@.take(items.len() as int) =~= items@);
    result
}

fn collect_non_empty(items: &Vec<String>) -> (r: Vec<String>)
    ensures
        texts_of(r@) == non_empty_texts(items@),
{
    let mut result: Vec<String> = Vec::new();
    let mut i: usize = 0;
    assert(texts_of(result@) =~= non_empty_texts(items@.take(0)));
    while i < items.len()
        invariant
            i <= items.len(),
            texts_of(result@) == non_empty_texts(items@.take(i as int)),
        decreases items.len() - i,
    {
        let ghost found = texts_of(result@);
        proof {
            assert(items@.take(i + 1).drop_last() =~= items@.take(i as int));
            assert(items@.take(i + 1).last() == items[i as int]);
        }
        if !items[i].as_str().is_empty() {
            result.push(items[i].clone());
            assert(texts_of(result@) =~= found.push(items[i as int]@));
        }
        i += 1;
    }
    assert(items@.take(items.len() as int) =~= items@);
    result
}

/// What is said of the data of a compartment: the first of its lists, in
/// the order mappings, groups, parameters, that names something twice, or
/// nothing if none does.
pub open spec fn compartment_duplicates_spec(
    mapping_ids: Seq<Option<String>>,
    group_ids: Seq<String>,
    parameter_keys: Seq<Option<String>>,
) -> Option<Seq<char>> {
    if !nothing_twice(present_texts(mapping_ids)) {
        Some(duplicate_message("mapping IDs"@, present_texts(mapping_ids)))
    } else if !nothing_twice(non_empty_texts(group_ids)) {
        Some(duplicate_message("group IDs"@, non_empty_texts(group_ids)))
    } else if !nothing_twice(present_texts(parameter_keys)) {
        Some(duplicate_message("parameter IDs"@, present_texts(parameter_keys)))
    } else {
        None
    }
}

/// Makes sure that the data of a compartment names no mapping, no group and
/// no parameter twice. Mappings and parameters without an ID and groups
/// with an empty one are not looked at.
pub fn ensure_no_duplicate_compartment_data(
    mapping_ids: &Vec<Option<String>>,
    group_ids: &Vec<String>,
    parameter_keys: &Vec<Option<String>>,
) -> (r: Result<(), String>)
    ensures
        match compartment_duplicates_spec(mapping_ids@, group_ids@, parameter_keys@) {
            Some(message) => r is Err && r->Err_0@ == message,
            None => r is Ok,
        },
{
    match ensure_no_duplicate("mapping IDs", &collect_present(mapping_ids)) {
        Err(e) => {
            return Err(e);
        },
        Ok(()) => {},
    }
    match ensure_no_duplicate("group IDs", &collect_non_empty(group_ids)) {
        Err(e) => {
            return Err(e);
        },
        Ok(()) => {},
    }
    match ensure_no_duplicate("parameter IDs", &collect_present(parameter_keys)) {
        Err(e) => {
            return Err(e);
        },
        Ok(()) => {},
    }
    Ok(())
}

} // verus!
