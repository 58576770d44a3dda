//! The overview of all playlists as lines of text: each playlist's name,
//! then its songs, numbered from one.

use vstd::prelude::*;
use vstd::string::*;
use crate::playlists::{titles, Playlists, Shelf};

verus! {

/// The character of a decimal digit.
pub open spec fn digit(d: nat) -> char {
    if d == 0 {
        '0'
    } else if d == 1 {
        '1'
    } else if d == 2 {
        '2'
    } else if d == 3 {
        '3'
    } else if d == 4 {
        '4'
    } else if d == 5 {
        '5'
    } else if d == 6 {
        '6'
    } else if d == 7 {
        '7'
    } else if d == 8 {
        '8'
    } else {
        '9'
    }
}

/// A number in decimal digits, without leading zeros.
pub open spec fn decimal(n: nat) -> Seq<char>
    decreases n,
{
    if n < 10 {
        seq![digit(n)]
    } else {
        decimal(n / 10).push(digit(n % 10))
    }
}

/// The line that opens a playlist in the overview.
pub open spec fn title_line(name: Seq<char>) -> Seq<char> {
    "  📁  "@ + name
}

/// The line of the song at `number`, counted from one.
pub open spec fn song_line(number: nat, song: Seq<char>) -> Seq<char> {
    "       "@ + decimal(number) + ". "@ + song
}

/// The lines of the first `count` songs, numbered from one.
pub open spec fn numbered(songs: Seq<Seq<char>>, count: nat) -> Seq<Seq<char>> {
    Seq::new(count, |i: int| song_line((i + 1) as nat, songs[i]))
}

/// The lines of one playlist: its name, then its songs; a playlist without
/// songs says so.
pub open spec fn playlist_lines(name: Seq<char>, songs: Seq<Seq<char>>) -> Seq<Seq<char>> {
    if songs.len() == 0 {
        seq![title_line(name), "       (ingen sange)"@]
    } else {
        seq![title_line(name)] + numbered(songs, songs.len())
    }
}

/// The lines of the playlists named in `order`, one playlist after the
/// other.
pub open spec fn listing(order: Seq<Seq<char>>, shelf: Shelf) -> Seq<Seq<char>>
    decreases order.len(),
{
    if order.len() == 0 {
        Seq::empty()
    } else {
        listing(order.drop_last(), shelf) + playlist_lines(order.last(), shelf[order.last()])
    }
}

/// The whole overview: the listing, or one line that says that there is no
/// playlist yet.
pub open spec fn overview(order: Seq<Seq<char>>, shelf: Shelf) -> Seq<Seq<char>> {
    if order.len() == 0 {
        seq!["  (ingen afspilningslister endnu)"@]
    } else {
        listing(order, shelf)
    }
}

/// The text of one decimal digit.
fn digit_text(d: usize) -> (text: &'static str)
    requires
        d < 10,
    ensures
        text@ == seq![digit(d as nat)],
{
    proof {
        reveal_strlit("0");
        reveal_strlit("1");
        reveal_strlit("2");
        reveal_strlit("3");
        reveal_strlit("4");
        reveal_strlit("5");
        reveal_strlit("6");
        reveal_strlit("7");
        reveal_strlit("8");
        reveal_strlit("9");
    }
    let text = if d == 0 {
        "0"
    } else if d == 1 {
        "1"
    } else if d == 2 {
        "2"
    } else if d == 3 {
        "3"
    } else if d == 4 {
        "4"
    } else if d == 5 {
        "5"
    } else if d == 6 {
        "6"
    } else if d == 7 {
        "7"
    } else if d == 8 {
        "8"
    } else {
        "9"
    };
    assert(text@ =~= seq![digit(d as nat)]);
    text
}

/// Writes a number in decimal digits.
pub fn decimal_text(n: usize) -> (text: String)
    ensures
        text@ == decimal(n as nat),
    decreases n,
{
    if n < 10 {
        String::from_str(digit_text(n))
    } else {
        let mut text = decimal_text(n / 10);
        text.append(digit_text(n % 10));
        assert(text@ =~= decimal(n as nat));
        text
    }
}

/// The line of the song at `number`, counted from one.
pub fn song_line_text(number: usize, song: &str) -> (line: String)
    ensures
        line@ == song_line(number as nat, song@),
{
    let mut line = String::from_str("       ");
    let digits = decimal_text(number);
    line.append(digits.as_str());
    line.append(". ");
    line.append(song);
    line
}

/// The overview of all playlists, line by line: the playlists in the order
/// in which they were created, each with its songs in the order in which
/// they were added.
pub fn overview_lines(playlists: &Playlists) -> (lines: Vec<String>)
    ensures
        titles(lines@) == overview(playlists.order(), playlists@),
{
    let names = playlists.names();
    let mut lines: Vec<String> = Vec::new();
    let ghost order = playlists.order();
    let ghost shelf = playlists@;
    if names.len() == 0 {
        lines.push(String::from_str("  (ingen afspilningslister endnu)"));
        assert(titles(lines@) =~= overview(order, shelf));
        return lines;
    }
    let mut i: usize = 0;
    assert(titles(lines@) =~= listing(order.take(0), shelf));
    while i < names.len()
        invariant
            i <= names@.len(),
            titles(names@) == order,
            order == playlists.order(),
            shelf == playlists@,
            forall|name: Seq<char>| titles(names@).contains(name) <==> shelf.contains_key(name),
            titles(lines@) == listing(order.take(i as int), shelf),
        decreases names@.len() - i,
    {
        let name = names[i].as_str();
        let ghost done = titles(lines@);
        proof {
            assert(titles(names@)[i as int] == name@);
            assert(titles(names@).contains(name@));
            assert(order.take(i + 1).drop_last() =~= order.take(i as int));
            assert(order.take(i + 1).last() == name@);
        }
        let mut title = String::from_str("  📁  ");
        title.append(name);
        lines.push(title);
        // `names` gives only playlists that are there, so the songs are found.
        let list = match playlists.songs(name) {
            Some(list) => list,
            None => Vec::new(),
        };
        assert(titles(list@) == shelf[name@]);
        if list.len() == 0 {
            lines.push(String::from_str("       (ingen sange)"));
            assert(titles(lines@) =~= done + playlist_lines(name@, shelf[name@]));
        } else {
            let mut k: usize = 0;
            assert(titles(lines@) =~= done + seq![title_line(name@)] + numbered(titles(list@), 0));
            while k < list.len()
                invariant
                    k <= list@.len(),
                    titles(lines@) == done + seq![title_line(name@)] + numbered(
                        titles(list@),
                        k as nat,
                    ),
                decreases list@.len() - k,
            {
                let ghost so_far = titles(lines@);
                let line = song_line_text(k + 1, list[k].as_str());
                lines.push(line);
                proof {
                    assert(titles(lines@) =~= so_far.push(line@));
                    assert(numbered(titles(list@), (k + 1) as nat) =~= numbered(
                        titles(list@),
                        k as nat,
                    ).push(line@));
                    assert(titles(lines@) =~= done + seq![title_line(name@)] + numbered(
                        titles(list@),
                        (k + 1) as nat,
                    ));
                }
                k += 1;
            }
            assert(titles(lines@) =~= done + playlist_lines(name@, shelf[name@]));
        }
        i += 1;
    }
    assert(order.take(i as int) =~= order);
    lines
}

} // verus!
