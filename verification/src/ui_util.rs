//! Texts for the eyes of the user.

use vstd::prelude::*;

verus! {

/// The texts of a list of strings.
pub open spec fn texts_of(strings: Seq<String>) -> Seq<Seq<char>> {
    Seq::new(strings.len(), |i: int| strings[i]@)
}

/// The texts of a list, one after the other, with a separator between each
/// two.
pub open spec fn join_spec(texts: Seq<Seq<char>>, separator: Seq<char>) -> Seq<char>
    decreases texts.len(),
{
    if texts.len() == 0 {
        Seq::<char>::empty()
    } else if texts.len() == 1 {
        texts[0]
    } else {
        join_spec(texts.drop_last(), separator) + separator + texts.last()
    }
}

/// The separator of a comma-separated list.
pub open spec fn csv_separator() -> Seq<char> {
    ", "@
}

/// Why something was put out.
#[derive(Copy, Clone, Debug, PartialEq, Eq, Structural)]
pub enum OutputReason {
    RealFeedback,
    VirtualFeedback,
    Lifecycle,
    TargetOutput,
}

impl OutputReason {
    /// The reason in words.
    pub fn label(&self) -> (r: &'static str)
        ensures
            r@ == (match *self {
                OutputReason::RealFeedback => "Real feedback"@,
                OutputReason::VirtualFeedback => "Virtual feedback"@,
                OutputReason::Lifecycle => "Lifecycle output"@,
                OutputReason::TargetOutput => "Target output"@,
            }),
    {
        match self {
            OutputReason::RealFeedback => "Real feedback",
            OutputReason::VirtualFeedback => "Virtual feedback",
            OutputReason::Lifecycle => "Lifecycle output",
            OutputReason::TargetOutput => "Target output",
        }
    }
}

/// A tag that mappings can be marked with.
#[derive(Clone, Debug, PartialEq, Eq)]
pub struct Tag {
    pub text: String,
}

impl View for Tag {
    type V = Seq<char>;

    open spec fn view(&self) -> Seq<char> {
        self.text@
    }
}

/// The texts of a list of tags.
pub open spec fn tag_texts(tags: Seq<Tag>) -> Seq<Seq<char>> {
    Seq::new(tags.len(), |i: int| tags[i]@)
}

/// Joining one text more puts the separator and the text behind what was
/// joined so far, and the first text stands alone.
pub proof fn lemma_join_with_step(texts: Seq<Seq<char>>, i: int, separator: Seq<char>)
    requires
        0 <= i < texts.len(),
    ensures
        join_spec(texts.take(i + 1), separator) == (if i == 0 {
            texts[i]
        } else {
            join_spec(texts.take(i), separator) + separator + texts[i]
        }),
{
    let upto = texts.take(i + 1);
    assert(upto.last() == texts[i]);
    assert(upto.drop_last() =~= texts.take(i));
    if i == 0 {
        assert(upto[0] == texts[0]);
    }
}

/// Writes the texts with a comma and a space between each two.
pub fn format_as_csv(items: &Vec<String>) -> (r: String)
    ensures
        r@ == join_spec(texts_of(items@), csv_separator()),
{
    let mut result = String::new();
    let mut i: usize = 0;
    while i < items.len()
        invariant
            i <= items.len(),
            result@ == join_spec(texts_of(items@).take(i as int), csv_separator()),
        decreases items.len() - i,
    {
        proof {
            lemma_join_with_step(texts_of(items@), i as int, csv_separator());
        }
        if i > 0 {
            result.append(", ");
        } else {
            assert(result@ + items[i as int]@ =~= items[i as int]@);
        }
        result.append(items[i].as_str());
        i += 1;
    }
    assert(texts_of(items@).take(items.len() as int) =~= texts_of(items@));
    result
}

/// Writes the tags with a comma and a space between each two.
pub fn format_tags_as_csv(tags: &Vec<Tag>) -> (r: String)
    ensures
        r@ == join_spec(tag_texts(tags@), csv_separator()),
{
    let mut result = String::new();
    let mut i: usize = 0;
    while i < tags.len()
        invariant
            i <= tags.len(),
            result@ == join_spec(tag_texts(tags@).take(i as int), csv_separator()),
        decreases tags.len() - i,
    {
        proof {
            lemma_join_with_step(tag_texts(tags@), i as int, csv_separator());
        }
        if i > 0 {
            result.append(", ");
        } else {
            assert(result@ + tags[i as int]@ =~= tags[i as int]@);
        }
        result.append(tags[i].text.as_str());
        i += 1;
    }
    assert(tag_texts(tags@).take(tags.len() as int) =~= tag_texts(tags@));
    result
}

} // verus!
