//! What the bot sends: a text in Telegram's HTML notation, and buttons below it.

use vstd::prelude::*;

verus! {

/// A button: what it shows, and what the bot hears when it is tapped.
#[derive(Debug)]
pub struct Button {
    pub label: String,
    pub data: String,
}

/// A message of the bot; without rows of buttons it has no keyboard.
#[derive(Debug)]
pub struct Reply {
    pub text: String,
    pub keyboard: Vec<Vec<Button>>,
}

/// A button by its texts.
pub type Key = (Seq<char>, Seq<char>);

/// The texts of a button.
pub open spec fn key_of(b: Button) -> Key {
    (b.label@, b.data@)
}

/// The texts of a row of buttons.
pub open spec fn row_of(row: Seq<Button>) -> Seq<Key> {
    Seq::new(row.len(), |i: int| key_of(row[i]))
}

/// The texts of a keyboard.
pub open spec fn rows_of(rows: Seq<Vec<Button>>) -> Seq<Seq<Key>> {
    Seq::new(rows.len(), |i: int| row_of(rows[i]@))
}

/// A reply by its texts.
#[verifier::ext_equal]
pub struct Face {
    pub text: Seq<char>,
    pub keyboard: Seq<Seq<Key>>,
}

/// What a reply shows.
pub open spec fn face(r: Reply) -> Face {
    Face { text: r.text@, keyboard: rows_of(r.keyboard@) }
}

/// A reply without buttons.
pub open spec fn plain(text: Seq<char>) -> Face {
    Face { text, keyboard: seq![] }
}

/// A reply without buttons.
pub fn say(text: String) -> (r: Reply)
    ensures
        face(r) == plain(text@),
{
    let r = Reply { text, keyboard: Vec::new() };
    assert(rows_of(r.keyboard@) =~= seq![]);
    r
}

/// A reply without buttons.
pub fn say_text(text: &str) -> (r: Reply)
    ensures
        face(r) == plain(text@),
{
    say(text.to_owned())
}

/// A button.
pub fn button(label: &str, data: String) -> (b: Button)
    ensures
        key_of(b) == (label@, data@),
{
    Button { label: label.to_owned(), data }
}

/// A button with a fixed meaning.
pub fn fixed(label: &str, data: &str) -> (b: Button)
    ensures
        key_of(b) == (label@, data@),
{
    Button { label: label.to_owned(), data: data.to_owned() }
}

/// Put a button at the end of a row.
pub fn add_key(row: &mut Vec<Button>, b: Button)
    ensures
        row_of(final(row)@) == row_of(old(row)@).push(key_of(b)),
{
    let ghost before = row@;
    row.push(b);
    assert(row_of(row@) =~= row_of(before).push(key_of(b)));
}

/// Put a row at the end of a keyboard.
pub fn add_row(rows: &mut Vec<Vec<Button>>, row: Vec<Button>)
    ensures
        rows_of(final(rows)@) == rows_of(old(rows)@).push(row_of(row@)),
{
    let ghost before = rows@;
    rows.push(row);
    assert(rows_of(rows@) =~= rows_of(before).push(row_of(row@)));
}

/// A row of one button.
pub fn one(a: Button) -> (row: Vec<Button>)
    ensures
        row_of(row@) == seq![key_of(a)],
{
    let mut row: Vec<Button> = Vec::new();
    row.push(a);
    assert(row_of(row@) =~= seq![key_of(a)]);
    row
}

/// A row of two buttons.
pub fn two(a: Button, b: Button) -> (row: Vec<Button>)
    ensures
        row_of(row@) == seq![key_of(a), key_of(b)],
{
    let mut row: Vec<Button> = Vec::new();
    row.push(a);
    row.push(b);
    assert(row_of(row@) =~= seq![key_of(a), key_of(b)]);
    row
}

/// A reply with one row of buttons.
pub fn ask(text: String, row: Vec<Button>) -> (r: Reply)
    ensures
        face(r) == (Face { text: text@, keyboard: seq![row_of(row@)] }),
{
    let mut keyboard: Vec<Vec<Button>> = Vec::new();
    keyboard.push(row);
    assert(rows_of(keyboard@) =~= seq![row_of(row@)]);
    Reply { text, keyboard }
}

/// A keyboard without rows.
pub fn no_rows() -> (rows: Vec<Vec<Button>>)
    ensures
        rows_of(rows@) == Seq::<Seq<Key>>::empty(),
{
    let rows: Vec<Vec<Button>> = Vec::new();
    assert(rows_of(rows@) =~= Seq::empty());
    rows
}

/// A row without buttons.
pub fn no_keys() -> (row: Vec<Button>)
    ensures
        row_of(row@) == Seq::<Key>::empty(),
{
    let row: Vec<Button> = Vec::new();
    assert(row_of(row@) =~= Seq::empty());
    row
}

} // verus!
