//! The casino games: who may play, what a round pays and what the member is told.
use vstd::prelude::*;

use crate::text::{int_text, push_int};

verus! {

/// The largest bid any casino command accepts.
pub const MAX_BID: i64 = 500;

/// The cash balance a member needs before playing.
pub const MIN_BALANCE: i32 = 1000;

/// The casino games, in the order the command lists them.
#[derive(Clone, Copy, Debug, PartialEq, Eq, Structural)]
pub enum Game {
    Coinflip,
    Diceroll,
    Carddraw,
    Numberguess,
    Lucky3,
}

/// What a finished round gives back: the amount to cash out (zero when the
/// member lost) and the reply shown to the member.
pub struct Outcome {
    pub winnings: i32,
    pub reply: String,
}

/// The subcommand name of each game.
pub open spec fn game_name_spec(g: Game) -> Seq<char> {
    match g {
        Game::Coinflip => "coinflip"@,
        Game::Diceroll => "diceroll"@,
        Game::Carddraw => "carddraw"@,
        Game::Numberguess => "numberguess"@,
        Game::Lucky3 => "lucky3"@,
    }
}

/// The name under which the game's buy-in and cash-out are recorded.
pub fn game_name(g: Game) -> (r: &'static str)
    ensures
        r@ == game_name_spec(g),
{
    match g {
        Game::Coinflip => "coinflip",
        Game::Diceroll => "diceroll",
        Game::Carddraw => "carddraw",
        Game::Numberguess => "numberguess",
        Game::Lucky3 => "lucky3",
    }
}

/// The game a subcommand name selects, if any.
pub fn parse_game(name: &str) -> (r: Option<Game>)
    ensures
        match r {
            Some(g) => game_name_spec(g) == name@,
            None => forall|g: Game| game_name_spec(g) != name@,
        },
{
    let s = crate::text::chars_of(name);
    let games = [Game::Coinflip, Game::Diceroll, Game::Carddraw, Game::Numberguess, Game::Lucky3];
    let mut i: usize = 0;
    while i < 5
        invariant
            i <= 5,
            s@ == name@,
            games@ == seq![Game::Coinflip, Game::Diceroll, Game::Carddraw, Game::Numberguess, Game::Lucky3],
            forall|j: int| 0 <= j < i ==> game_name_spec(#[trigger] games@[j]) != name@,
        decreases 5 - i,
    {
        let g = games[i];
        let n = crate::text::chars_of(game_name(g));
        if crate::text::starts_with_chars(&s, &n) && n.len() == s.len() {
            proof {
                assert(s@ == n@);
            }
            return Some(g);
        }
        proof {
            if n@ == s@ {
                assert(n@.is_prefix_of(s@));
            }
        }
        i += 1;
    }
    proof {
        assert forall|g: Game| game_name_spec(g) != name@ by {
            match g {
                Game::Coinflip => assert(games@[0] == g),
                Game::Diceroll => assert(games@[1] == g),
                Game::Carddraw => assert(games@[2] == g),
                Game::Numberguess => assert(games@[3] == g),
                Game::Lucky3 => assert(games@[4] == g),
            }
        }
    }
    None
}

/// Whether a member with cash `balance` may play.
pub fn can_play_balance(balance: i32) -> (r: bool)
    ensures
        r == (balance >= MIN_BALANCE),
{
    balance >= MIN_BALANCE
}

/// The reply sent when the balance is too low to play.
pub fn low_balance_reply() -> (r: &'static str)
    ensures
        r@ == "You need at least $1000 to play casino games"@,
{
    "You need at least $1000 to play casino games"
}

/// `prefix`, the integer `n`, then `suffix`.
pub open spec fn framed(prefix: Seq<char>, n: int, suffix: Seq<char>) -> Seq<char> {
    prefix + int_text(n) + suffix
}

fn framed_exec(prefix: &str, n: i64, suffix: &str) -> (r: String)
    ensures
        r@ == framed(prefix@, n as int, suffix@),
{
    let mut s = String::from_str(prefix);
    push_int(&mut s, n);
    s.append(suffix);
    s
}

/// Coinflip: a won flip pays double the bid.
pub open spec fn coinflip_spec(bid: int, win: bool) -> (int, Seq<char>) {
    if win {
        (2 * bid, framed("You won $"@, 2 * bid, "!"@))
    } else {
        (0, framed("You lost $"@, bid, "!"@))
    }
}

/// The round of coinflip decided by `win`.
pub fn coinflip_outcome(bid: i64, win: bool) -> (o: Outcome)
    requires
        1 <= bid <= MAX_BID,
    ensures
        (o.winnings as int, o.reply@) == coinflip_spec(bid as int, win),
{
    if win {
        let amount = (bid * 2) as i32;
        Outcome { winnings: amount, reply: framed_exec("You won $", amount as i64, "!") }
    } else {
        Outcome { winnings: 0, reply: framed_exec("You lost $", bid, "!") }
    }
}

/// The die face a random number gives: `r % 6 + 1`.
pub open spec fn die_face(r: u32) -> int {
    (r % 6) as int + 1
}

/// Diceroll: guessing the face pays six times the bid.
pub open spec fn diceroll_spec(bid: int, guess: int, r: u32) -> (int, Seq<char>) {
    let roll = die_face(r);
    if roll == guess {
        (
            6 * bid,
            framed("You rolled a "@, roll, "! You guessed correctly! You won $"@) + int_text(6 * bid)
                + "!"@,
        )
    } else {
        (
            0,
            framed("You rolled a "@, roll, "! You guessed "@) + int_text(guess) + ". You lost $"@
                + int_text(bid) + "!"@,
        )
    }
}

/// The round of diceroll decided by the random number `r`.
pub fn diceroll_outcome(bid: i64, guess: i64, r: u32) -> (o: Outcome)
    requires
        1 <= bid <= MAX_BID,
        1 <= guess <= 6,
    ensures
        (o.winnings as int, o.reply@) == diceroll_spec(bid as int, guess as int, r),
{
    let roll = r % 6 + 1;
    if roll == guess as u32 {
        let amount = (bid * 6) as i32;
        let mut s = framed_exec("You rolled a ", roll as i64, "! You guessed correctly! You won $");
        push_int(&mut s, amount as i64);
        s.append("!");
        Outcome { winnings: amount, reply: s }
    } else {
        let mut s = framed_exec("You rolled a ", roll as i64, "! You guessed ");
        push_int(&mut s, guess);
        s.append(". You lost $");
        push_int(&mut s, bid);
        s.append("!");
        Outcome { winnings: 0, reply: s }
    }
}

/// The colour of a drawn card.
pub open spec fn card_color(red: bool) -> Seq<char> {
    if red {
        "red"@
    } else {
        "black"@
    }
}

/// Carddraw: naming the colour of the card pays double the bid.
pub open spec fn carddraw_spec(bid: int, guess: Seq<char>, red: bool) -> (int, Seq<char>) {
    let actual = card_color(red);
    if actual == guess {
        (2 * bid, "The card is "@ + actual + "! You won $"@ + int_text(2 * bid) + "!"@)
    } else {
        (0, "The card is "@ + actual + "! You lost $"@ + int_text(bid) + "!"@)
    }
}

/// The round of carddraw decided by the colour drawn (`red` or black).
pub fn carddraw_outcome(bid: i64, guess: &str, red: bool) -> (o: Outcome)
    requires
        1 <= bid <= MAX_BID,
    ensures
        (o.winnings as int, o.reply@) == carddraw_spec(bid as int, guess@, red),
{
    let actual = if red {
        "red"
    } else {
        "black"
    };
    let a = crate::text::chars_of(actual);
    let g = crate::text::chars_of(guess);
    let same = a.len() == g.len() && crate::text::starts_with_chars(&g, &a);
    proof {
        if a@ == g@ {
            assert(a@.is_prefix_of(g@));
        }
        if same {
            assert(g@.subrange(0, a@.len() as int) == g@);
        }
    }
    let mut s = String::from_str("The card is ");
    s.append(actual);
    if same {
        let amount = (bid * 2) as i32;
        s.append("! You won $");
        push_int(&mut s, amount as i64);
        s.append("!");
        Outcome { winnings: amount, reply: s }
    } else {
        s.append("! You lost $");
        push_int(&mut s, bid);
        s.append("!");
        Outcome { winnings: 0, reply: s }
    }
}

/// The number drawn from a random number: `r % 10 + 1`.
pub open spec fn drawn_number(r: u32) -> int {
    (r % 10) as int + 1
}

/// Numberguess: guessing the number pays ten times the bid.
pub open spec fn numberguess_spec(bid: int, guess: int, r: u32) -> (int, Seq<char>) {
    let n = drawn_number(r);
    if n == guess {
        (
            10 * bid,
            framed("The number was "@, n, "! You guessed correctly! You won $"@) + int_text(
                10 * bid,
            ) + "!"@,
        )
    } else {
        (
            0,
            framed("The number was "@, n, "! You guessed "@) + int_text(guess) + ". You lost $"@
                + int_text(bid) + "!"@,
        )
    }
}

/// The round of numberguess decided by the random number `r`.
pub fn numberguess_outcome(bid: i64, guess: i64, r: u32) -> (o: Outcome)
    requires
        1 <= bid <= MAX_BID,
        1 <= guess <= 10,
    ensures
        (o.winnings as int, o.reply@) == numberguess_spec(bid as int, guess as int, r),
{
    let n = r % 10 + 1;
    if n == guess as u32 {
        let amount = (bid * 10) as i32;
        let mut s = framed_exec("The number was ", n as i64, "! You guessed correctly! You won $");
        push_int(&mut s, amount as i64);
        s.append("!");
        Outcome { winnings: amount, reply: s }
    } else {
        let mut s = framed_exec("The number was ", n as i64, "! You guessed ");
        push_int(&mut s, guess);
        s.append(". You lost $");
        push_int(&mut s, bid);
        s.append("!");
        Outcome { winnings: 0, reply: s }
    }
}

/// The keycap emoji shortcode of a number from one to ten.
pub open spec fn emoji_spec(n: u32) -> Seq<char> {
    if n == 1 {
        ":one:"@
    } else if n == 2 {
        ":two:"@
    } else if n == 3 {
        ":three:"@
    } else if n == 4 {
        ":four:"@
    } else if n == 5 {
        ":five:"@
    } else if n == 6 {
        ":six:"@
    } else if n == 7 {
        ":seven:"@
    } else if n == 8 {
        ":eight:"@
    } else if n == 9 {
        ":nine:"@
    } else {
        ":keycap_ten:"@
    }
}

/// The keycap emoji shortcode of a number from one to ten.
pub fn number_to_emoji(number: u32) -> (r: &'static str)
    requires
        1 <= number <= 10,
    ensures
        r@ == emoji_spec(number),
{
    match number {
        1 => ":one:",
        2 => ":two:",
        3 => ":three:",
        4 => ":four:",
        5 => ":five:",
        6 => ":six:",
        7 => ":seven:",
        8 => ":eight:",
        9 => ":nine:",
        _ => ":keycap_ten:",
    }
}

/// How many of three dice show a three.
pub open spec fn threes(a: int, b: int, c: int) -> int {
    (if a == 3 {
        1int
    } else {
        0
    }) + (if b == 3 {
        1int
    } else {
        0
    }) + (if c == 3 {
        1int
    } else {
        0
    })
}

/// What lucky3 pays for a number of threes: nothing, one and a half times
/// the bid (rounded down), four times, or thirty times.
pub open spec fn lucky3_winnings(bid: int, t: int) -> int {
    if t == 0 {
        0
    } else if t == 1 {
        (3 * bid) / 2
    } else if t == 2 {
        4 * bid
    } else {
        30 * bid
    }
}

/// Lucky3: three dice; each three showing raises the payout.
pub open spec fn lucky3_spec(bid: int, r0: u32, r1: u32, r2: u32) -> (int, Seq<char>) {
    let (a, b, c) = (die_face(r0), die_face(r1), die_face(r2));
    let t = threes(a, b, c);
    let w = lucky3_winnings(bid, t);
    let head = "You rolled: "@ + emoji_spec(a as u32) + " "@ + emoji_spec(b as u32) + " "@
        + emoji_spec(c as u32) + "\n"@;
    if w > 0 {
        (w, head + "You got "@ + int_text(t) + " threes! You won $"@ + int_text(w) + "!"@)
    } else {
        (0, head + "You got no threes! You lost your bet!"@)
    }
}

/// The round of lucky3 decided by three random numbers, one per die.
pub fn lucky3_outcome(bid: i64, r0: u32, r1: u32, r2: u32) -> (o: Outcome)
    requires
        1 <= bid <= MAX_BID,
    ensures
        (o.winnings as int, o.reply@) == lucky3_spec(bid as int, r0, r1, r2),
{
    let a = r0 % 6 + 1;
    let b = r1 % 6 + 1;
    let c = r2 % 6 + 1;
    let mut s = String::from_str("You rolled: ");
    s.append(number_to_emoji(a));
    s.append(" ");
    s.append(number_to_emoji(b));
    s.append(" ");
    s.append(number_to_emoji(c));
    s.append("\n");
    let t: i64 = (if a == 3 {
        1i64
    } else {
        0
    }) + (if b == 3 {
        1i64
    } else {
        0
    }) + (if c == 3 {
        1i64
    } else {
        0
    });
    let w: i64 = if t == 0 {
        0
    } else if t == 1 {
        (3 * bid) / 2
    } else if t == 2 {
        4 * bid
    } else {
        30 * bid
    };
    if w > 0 {
        s.append("You got ");
        push_int(&mut s, t);
        s.append(" threes! You won $");
        push_int(&mut s, w);
        s.append("!");
        Outcome { winnings: w as i32, reply: s }
    } else {
        s.append("You got no threes! You lost your bet!");
        Outcome { winnings: 0, reply: s }
    }
}

/// Calls `rand::random::<bool>()`. Nothing is claimed of the value: it is chance.
#[verifier::external_body]
fn random_bool() -> (r: bool) {
    rand::random::<bool>()
}

/// Calls `rand::random::<u32>()`. Nothing is claimed of the value: it is chance.
#[verifier::external_body]
fn random_u32() -> (r: u32) {
    rand::random::<u32>()
}

/// Plays one round of `game` after the buy-in: draws the random numbers the
/// game needs and settles the round. `guess` is the number guessed
/// (diceroll, numberguess) and `color` the colour named (carddraw).
pub fn play(game: Game, bid: i64, guess: i64, color: &str) -> (o: Outcome)
    requires
        1 <= bid <= MAX_BID,
        game == Game::Diceroll ==> 1 <= guess <= 6,
        game == Game::Numberguess ==> 1 <= guess <= 10,
    ensures
        match game {
            Game::Coinflip => exists|w: bool|
                (o.winnings as int, o.reply@) == coinflip_spec(bid as int, w),
            Game::Diceroll => exists|r: u32|
                (o.winnings as int, o.reply@) == diceroll_spec(bid as int, guess as int, r),
            Game::Carddraw => exists|red: bool|
                (o.winnings as int, o.reply@) == carddraw_spec(bid as int, color@, red),
            Game::Numberguess => exists|r: u32|
                (o.winnings as int, o.reply@) == numberguess_spec(bid as int, guess as int, r),
            Game::Lucky3 => exists|r0: u32, r1: u32, r2: u32|
                (o.winnings as int, o.reply@) == lucky3_spec(bid as int, r0, r1, r2),
        },
{
    match game {
        Game::Coinflip => coinflip_outcome(bid, random_bool()),
        Game::Diceroll => diceroll_outcome(bid, guess, random_u32()),
        Game::Carddraw => carddraw_outcome(bid, color, random_bool()),
        Game::Numberguess => numberguess_outcome(bid, guess, random_u32()),
        Game::Lucky3 => {
            let r0 = random_u32();
            let r1 = random_u32();
            let r2 = random_u32();
            lucky3_outcome(bid, r0, r1, r2)
        },
    }
}

/// What each game pays: nothing on a loss, else a fixed multiple of the bid
/// (lucky3: one and a half, four or thirty times, by the threes showing);
/// the round is won exactly when the guess is right.
pub proof fn law_payouts(bid: int, guess: int, color: Seq<char>, win: bool, red: bool, r: u32, r0: u32, r1: u32, r2: u32)
    requires
        1 <= bid <= MAX_BID,
    ensures
        coinflip_spec(bid, win).0 == (if win {
            2 * bid
        } else {
            0
        }),
        diceroll_spec(bid, guess, r).0 == (if die_face(r) == guess {
            6 * bid
        } else {
            0
        }),
        carddraw_spec(bid, color, red).0 == (if card_color(red) == color {
            2 * bid
        } else {
            0
        }),
        numberguess_spec(bid, guess, r).0 == (if drawn_number(r) == guess {
            10 * bid
        } else {
            0
        }),
        lucky3_spec(bid, r0, r1, r2).0 == lucky3_winnings(
            bid,
            threes(die_face(r0), die_face(r1), die_face(r2)),
        ),
        1 <= die_face(r) <= 6,
        1 <= drawn_number(r) <= 10,
{
    let t = threes(die_face(r0), die_face(r1), die_face(r2));
    assert(lucky3_winnings(bid, t) >= 0);
    assert(t == 1 ==> (3 * bid) / 2 > 0);
}

} // verus!
