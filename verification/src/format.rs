//! The detail formatter: a pure mapping from a record to display lines.

use crate::app::App;
use crate::datatypes::Brew;
use vstd::prelude::*;

verus! {

/// `n` copies of one character.
pub open spec fn repeat_char(c: char, n: nat) -> Seq<char> {
    Seq::new(n, |i: int| c)
}

/// How many empty stars follow the filled ones: what brings a valid rating
/// up to five glyphs, clamped to zero for a rating above five rather than
/// going negative.
pub open spec fn empty_star_count(rating: u8) -> nat {
    if rating > 5 {
        0nat
    } else {
        (5 - rating) as nat
    }
}

/// The rating line: the literal prefix, then one filled star per rating
/// point, then the empty stars. A rating in the valid range renders as
/// five glyphs; one above it keeps all its filled stars and has no empty
/// ones.
pub open spec fn star_rating_chars(rating: u8) -> Seq<char> {
    "Rating: "@ + repeat_char('★', rating as nat) + repeat_char('☆', empty_star_count(rating))
}

/// Render the rating line: `rating` filled stars, then the empty stars.
/// For a rating in the valid range the line carries exactly five glyphs
/// after the eight-character prefix; above the range the empty-star count
/// clamps to zero instead of underflowing.
pub fn generate_details_star_rating(rating: u8) -> (stars: String)
    ensures
        stars@ == star_rating_chars(rating),
        rating <= 5 ==> stars@.len() == 13,
{
    let empty: u8 = if rating > 5 {
        0
    } else {
        5 - rating
    };
    let mut stars: String = String::from_str("Rating: ");
    proof {
        reveal_strlit("Rating: ");
        assert(stars@ =~= "Rating: "@ + repeat_char('★', 0));
    }
    let mut i: u8 = 0;
    while i < rating
        invariant
            i <= rating,
            stars@ == "Rating: "@ + repeat_char('★', i as nat),
        decreases rating - i,
    {
        stars.append("★");
        proof {
            reveal_strlit("★");
            assert(stars@ =~= "Rating: "@ + repeat_char('★', (i + 1) as nat));
        }
        i = i + 1;
    }
    let mut j: u8 = 0;
    while j < empty
        invariant
            empty as nat == empty_star_count(rating),
            j <= empty,
            stars@ == "Rating: "@ + repeat_char('★', rating as nat) + repeat_char('☆', j as nat),
        decreases empty - j,
    {
        stars.append("☆");
        proof {
            reveal_strlit("☆");
            assert(stars@ =~= "Rating: "@ + repeat_char('★', rating as nat) + repeat_char(
                '☆',
                (j + 1) as nat,
            ));
        }
        j = j + 1;
    }
    proof {
        reveal_strlit("Rating: ");
    }
    stars
}

/// The character for one decimal digit.
pub open spec fn digit_char(d: int) -> char {
    if d == 0 {
        '0'
    } else if d == 1 {
        '1'
    } else if d == 2 {
        '2'
    } else if d == 3 {
        '3'
    } else if d == 4 {
        '4'
    } else if d == 5 {
        '5'
    } else if d == 6 {
        '6'
    } else if d == 7 {
        '7'
    } else if d == 8 {
        '8'
    } else {
        '9'
    }
}

/// The decimal digits of a number, most significant first.
pub open spec fn decimal_chars(n: int) -> Seq<char>
    decreases n,
{
    if n < 10 {
        seq![digit_char(n)]
    } else {
        decimal_chars(n / 10).push(digit_char(n % 10))
    }
}

/// The single-character string for one decimal digit.
fn digit_str(d: u64) -> (s: &'static str)
    requires
        d < 10,
    ensures
        s@ == seq![digit_char(d as int)],
{
    proof {
        reveal_strlit("0");
        reveal_strlit("1");
        reveal_strlit("2");
        reveal_strlit("3");
        reveal_strlit("4");
        reveal_strlit("5");
        reveal_strlit("6");
        reveal_strlit("7");
        reveal_strlit("8");
        reveal_strlit("9");
    }
    let s: &'static str = if d == 0 {
        "0"
    } else if d == 1 {
        "1"
    } else if d == 2 {
        "2"
    } else if d == 3 {
        "3"
    } else if d == 4 {
        "4"
    } else if d == 5 {
        "5"
    } else if d == 6 {
        "6"
    } else if d == 7 {
        "7"
    } else if d == 8 {
        "8"
    } else {
        "9"
    };
    proof {
        assert(s@ =~= seq![digit_char(d as int)]);
    }
    s
}

/// Render a number in decimal, most significant digit first.
pub fn u64_to_string(n: u64) -> (s: String)
    ensures
        s@ == decimal_chars(n as int),
    decreases n,
{
    if n < 10 {
        String::from_str(digit_str(n))
    } else {
        let mut s = u64_to_string(n / 10);
        let d = digit_str(n % 10);
        s.append(d);
        proof {
            assert(s@ =~= decimal_chars((n / 10) as int).push(digit_char((n % 10) as int)));
        }
        s
    }
}

/// One rendered list line: a bullet glyph for unordered lists, the
/// one-based ordinal and a period for ordered lists, then the item text.
pub open spec fn list_line(item: Seq<char>, ordered: bool, ordinal: int) -> Seq<char> {
    if ordered {
        decimal_chars(ordinal) + ". "@ + item
    } else {
        "⬤ "@ + item
    }
}

/// All rendered lines of a list, one per item, in storage order; ordinals
/// count from one.
pub open spec fn list_lines(items: Seq<Seq<char>>, ordered: bool) -> Seq<Seq<char>> {
    Seq::new(items.len(), |i: int| list_line(items[i], ordered, i + 1))
}

/// Pushing one string onto a vector appends that string's characters to
/// the vector's lines.
proof fn lemma_deep_view_push(pre: Vec<String>, post: Vec<String>, x: String)
    requires
        post@ == pre@.push(x),
    ensures
        post.deep_view() == pre.deep_view().push(x@),
{
    assert forall|i: int| 0 <= i < post.deep_view().len() implies post.deep_view()[i]
        == pre.deep_view().push(x@)[i] by {
        if i < pre@.len() {
            assert(post@[i] == pre@[i]);
        } else {
            assert(post@[i] == x);
        }
    }
    assert(post.deep_view() =~~= pre.deep_view().push(x@));
}

/// Push one line, tracking the effect on the vector's lines.
fn push_line(text: &mut Vec<String>, line: String)
    ensures
        final(text).deep_view() == old(text).deep_view().push(line@),
{
    let ghost pre: Vec<String> = *text;
    let ghost pushed: String = line;
    text.push(line);
    proof {
        lemma_deep_view_push(pre, *text, pushed);
    }
}

/// Append one rendered line per item to `text`, in storage order: bulleted
/// when unordered, numbered from one when ordered.
pub fn generate_details_list(text: &mut Vec<String>, items: &Vec<String>, ordered: bool)
    ensures
        final(text).deep_view() == old(text).deep_view() + list_lines(items.deep_view(), ordered),
{
    proof {
        assert(text.deep_view() =~~= old(text).deep_view() + list_lines(
            items.deep_view(),
            ordered,
        ).take(0));
    }
    let mut idx: usize = 0;
    while idx < items.len()
        invariant
            idx <= items.len(),
            text.deep_view() == old(text).deep_view() + list_lines(items.deep_view(), ordered).take(
                idx as int,
            ),
        decreases items.len() - idx,
    {
        let mut data: String = String::new();
        if ordered {
            let ordinal = u64_to_string((idx as u64) + 1);
            data.append(ordinal.as_str());
            data.append(". ");
        } else {
            data.append("⬤ ");
        }
        data.append(items[idx].as_str());
        let ghost pre: Vec<String> = *text;
        let ghost line: String = data;
        text.push(data);
        proof {
            lemma_deep_view_push(pre, *text, line);
            assert(line@ =~= list_line(items.deep_view()[idx as int], ordered, idx + 1));
            assert(text.deep_view() =~~= old(text).deep_view() + list_lines(
                items.deep_view(),
                ordered,
            ).take(idx + 1));
        }
        idx = idx + 1;
    }
    proof {
        assert(list_lines(items.deep_view(), ordered).take(items@.len() as int) =~~= list_lines(
            items.deep_view(),
            ordered,
        ));
    }
}

/// All display lines of one record's detail pane, in order: the rating
/// line; a blank; the description heading and text; a blank; the bulleted
/// ingredients; a blank; the numbered method steps; a blank; the two
/// gravity lines.
pub open spec fn details_lines(b: Brew) -> Seq<Seq<char>> {
    seq![
        star_rating_chars(b.rating),
        Seq::<char>::empty(),
        "Description"@,
        b.description@,
        Seq::<char>::empty(),
        "Ingredients"@,
    ] + list_lines(b.ingredients.deep_view(), false) + seq![Seq::<char>::empty(), "Method"@]
        + list_lines(b.method.deep_view(), true) + seq![
        Seq::<char>::empty(),
        "Initial Gravity: "@ + b.gravity.deep_view()[0],
        "Final Gravity: "@ + b.gravity.deep_view()[1],
    ]
}

/// Append the full detail view of the record at `index` to `text`. The
/// output is a pure function of the record alone: the same record always
/// yields the same lines.
pub fn generate_details(text: &mut Vec<String>, index: usize, app: &App)
    requires
        index < app.brews.items.len(),
        app.brews.items[index as int].wf(),
    ensures
        final(text).deep_view() == old(text).deep_view() + details_lines(
            app.brews.items[index as int],
        ),
{
    let brew: &Brew = &app.brews.items[index];
    push_line(text, generate_details_star_rating(brew.rating));
    push_line(text, String::new());
    push_line(text, String::from_str("Description"));
    push_line(text, String::from_str(brew.description.as_str()));
    push_line(text, String::new());
    push_line(text, String::from_str("Ingredients"));
    generate_details_list(text, &brew.ingredients, false);
    push_line(text, String::new());
    push_line(text, String::from_str("Method"));
    generate_details_list(text, &brew.method, true);
    push_line(text, String::new());
    let mut initial: String = String::from_str("Initial Gravity: ");
    initial.append(brew.gravity[0].as_str());
    push_line(text, initial);
    let mut final_line: String = String::from_str("Final Gravity: ");
    final_line.append(brew.gravity[1].as_str());
    push_line(text, final_line);
    proof {
        assert(text.deep_view() =~~= old(text).deep_view() + details_lines(
            app.brews.items[index as int],
        ));
    }
}

} // verus!
