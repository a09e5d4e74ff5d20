//! Text the bot reads and writes: model answers, handles, prompts and chat lines.

use vstd::prelude::*;

verus! {

/// The word with which a model declines to answer a tweet.
pub const IGNORE_COMMAND: &'static str = "IGNORE";

/// What the bot is asked when it writes a tweet of its own.
pub const POST_PROMPT: &'static str = "Share a single brief thought or observation in one short sentence.Be direct and concise. No questions, hashtags, or emojis.";

// ---------------------------------------------------------------------------------------------
// Model answers
// ---------------------------------------------------------------------------------------------

/// `s` without one pair of enclosing double quotes, if it has such a pair.
pub open spec fn unquoted(s: Seq<char>) -> Seq<char> {
    if s.len() >= 2 && s.first() == '"' && s.last() == '"' {
        s.subrange(1, s.len() - 1)
    } else {
        s
    }
}

/// `s` between double quotes.
pub open spec fn enclosed(s: Seq<char>) -> Seq<char> {
    seq!['"'] + s + seq!['"']
}

/// `part` is the run of characters that starts in `s` at `at`.
pub open spec fn is_run_at(s: Seq<char>, part: Seq<char>, at: int) -> bool {
    0 <= at <= s.len() - part.len() && s.subrange(at, at + part.len()) == part
}

/// `part` occurs in `s` as a run of consecutive characters.
pub open spec fn has_run(s: Seq<char>, part: Seq<char>) -> bool {
    exists|at: int| is_run_at(s, part, at)
}

/// A model answer that must not be published: it is empty, or it holds the ignore command.
pub open spec fn declines(answer: Seq<char>) -> bool {
    answer.len() == 0 || has_run(answer, IGNORE_COMMAND@)
}

/// Removes one pair of enclosing double quotes.
pub fn remove_quotes(s: String) -> (r: String)
    ensures
        r@ == unquoted(s@),
{
    let n: usize = s.as_str().unicode_len();
    if n >= 2 && s.as_str().get_char(0) == '"' && s.as_str().get_char(n - 1) == '"' {
        s.as_str().substring_char(1, n - 1).to_owned()
    } else {
        s
    }
}

/// Lists the characters of a text.
fn chars_of(s: &str) -> (r: Vec<char>)
    ensures
        r@ == s@,
{
    let mut chars: Vec<char> = Vec::new();
    for c in iter: s.chars()
        invariant
            chars@ == iter.seq().take(iter.index() as int),
            iter.seq() == s@,
    {
        chars.push(c);
    }
    chars
}

/// Tells whether `part` is the run of characters that starts in `s` at `at`.
fn starts_at(s: &Vec<char>, part: &Vec<char>, at: usize) -> (r: bool)
    requires
        at + part.len() <= s.len(),
    ensures
        r == is_run_at(s@, part@, at as int),
{
    let mut i: usize = 0;
    while i < part.len()
        invariant
            i <= part.len(),
            at + part.len() <= s.len(),
            forall|j: int| 0 <= j < i ==> s@[at + j] == #[trigger] part@[j],
        decreases part.len() - i,
    {
        if s[at + i] != part[i] {
            assert(s@.subrange(at as int, at + part.len())[i as int] != part@[i as int]);
            return false;
        }
        i = i + 1;
    }
    assert(s@.subrange(at as int, at + part.len()) =~= part@);
    true
}

/// Tells whether `part` occurs in `s`.
fn contains_str(s: &str, part: &str) -> (r: bool)
    ensures
        r == has_run(s@, part@),
{
    let text: Vec<char> = chars_of(s);
    let run: Vec<char> = chars_of(part);
    if run.len() > text.len() {
        return false;
    }
    let last: usize = text.len() - run.len();
    let mut at: usize = 0;
    while at < last
        invariant
            text@ == s@,
            run@ == part@,
            at <= last,
            last == text.len() - run.len(),
            forall|k: int| 0 <= k < at ==> !#[trigger] is_run_at(s@, part@, k),
        decreases last - at,
    {
        if starts_at(&text, &run, at) {
            return true;
        }
        at = at + 1;
    }
    starts_at(&text, &run, last)
}

/// Tells whether a model answer must not be published.
pub fn is_declined(answer: &str) -> (r: bool)
    ensures
        r == declines(answer@),
{
    answer.is_empty() || contains_str(answer, IGNORE_COMMAND)
}

// ---------------------------------------------------------------------------------------------
// Handles
// ---------------------------------------------------------------------------------------------

/// The lowercase form of a text, as Unicode defines it and `str::to_lowercase` computes it.
pub uninterp spec fn lowercase(s: Seq<char>) -> Seq<char>;

/// Two handles name the same account: they differ in letter case at most.
pub open spec fn same_handle(a: Seq<char>, b: Seq<char>) -> bool {
    lowercase(a) == lowercase(b)
}

/// Calls `str::to_lowercase`. Trusted: the result depends on the text alone; it is named
/// `lowercase`.
#[verifier::external_body]
fn to_lowercase(s: &str) -> (r: String)
    ensures
        r@ == lowercase(s@),
{
    s.to_lowercase()
}

/// Tells whether two handles name the same account.
pub fn is_same_handle(a: &str, b: &str) -> (r: bool)
    ensures
        r == same_handle(a@, b@),
{
    to_lowercase(a) == to_lowercase(b)
}

// ---------------------------------------------------------------------------------------------
// Chat lines and prompts
// ---------------------------------------------------------------------------------------------

/// A text as the `{:?}` form of std's formatter prints it: in double quotes, with escapes.
pub uninterp spec fn debug_form(s: Seq<char>) -> Seq<char>;

/// Formats a text with `{:?}`. Trusted: the result depends on the text alone; it is named
/// `debug_form`.
#[verifier::external_body]
fn to_debug_form(s: &str) -> (r: String)
    ensures
        r@ == debug_form(s@),
{
    format!("{:?}", s)
}

/// One line of a conversation: who spoke, and what was said in its quoted form.
pub open spec fn chat_line(username: Seq<char>, quoted: Seq<char>) -> Seq<char> {
    username + ": "@ + quoted
}

/// Lines one below the other, with a line break between neighbours.
pub open spec fn stacked(lines: Seq<Seq<char>>) -> Seq<char> {
    if lines.len() == 0 {
        Seq::empty()
    } else {
        lines.skip(1).fold_left(lines[0], |above: Seq<char>, line: Seq<char>| above + "\n"@ + line)
    }
}

/// What the model reads of a mention: the mention itself when it stands alone, else every line
/// of the conversation.
pub open spec fn conversation(text: Seq<char>, lines: Seq<Seq<char>>) -> Seq<char> {
    if lines.len() <= 1 {
        text
    } else {
        stacked(lines)
    }
}

/// What the model is asked about a tweet, given the tweet's content in its quoted form.
pub open spec fn tweet_prompt(name: Seq<char>, quoted: Seq<char>) -> Seq<char> {
    "Respond the tweet AS **"@ + name
        + "** would - only reply if your persona deems it necessary. When engaging:\n1. Use your character's unique voice and communication style naturally\n2. Keep responses to one authentic-sentence without hashtags\n3. Return "@
        + IGNORE_COMMAND@
        + " if your persona wouldn't respond to this tweet\n\n## Tweet Content:\n"@ + quoted
}

/// Writes one line of a conversation, given the quoted form of what was said.
pub fn compose_chat_line(username: &str, quoted: &str) -> (r: String)
    ensures
        r@ == chat_line(username@, quoted@),
{
    let mut line: String = username.to_owned();
    line.append(": ");
    line.append(quoted);
    line
}

/// Writes one line of a conversation.
pub fn write_chat_line(username: &str, said: &str) -> (r: String)
    ensures
        r@ == chat_line(username@, debug_form(said@)),
{
    let quoted: String = to_debug_form(said);
    compose_chat_line(username, quoted.as_str())
}

/// Puts lines one below the other.
pub fn stack_lines(lines: &Vec<String>) -> (r: String)
    ensures
        r@ == stacked(lines.deep_view()),
{
    if lines.len() == 0 {
        return String::new();
    }
    let ghost all = lines.deep_view();
    let ghost join = |above: Seq<char>, line: Seq<char>| above + "\n"@ + line;
    let mut text: String = lines[0].clone();
    let mut i: usize = 1;
    assert(all.skip(1).take(0).fold_left(all[0], join) == all[0]);
    while i < lines.len()
        invariant
            1 <= i <= lines.len(),
            all == lines.deep_view(),
            join == (|above: Seq<char>, line: Seq<char>| above + "\n"@ + line),
            text@ == all.skip(1).take(i - 1).fold_left(all[0], join),
        decreases lines.len() - i,
    {
        proof {
            let rest = all.skip(1).take(i as int);
            assert(rest.drop_last() == all.skip(1).take(i - 1));
            assert(rest.last() == lines[i as int]@);
        }
        text.append("\n");
        text.append(lines[i].as_str());
        i = i + 1;
    }
    assert(all.skip(1).take(i - 1) == all.skip(1));
    text
}

/// Chooses what the model reads of a mention.
pub fn compose_conversation(text: String, lines: &Vec<String>) -> (r: String)
    ensures
        r@ == conversation(text@, lines.deep_view()),
{
    if lines.len() <= 1 {
        text
    } else {
        stack_lines(lines)
    }
}

/// Writes the question about a tweet, given the quoted form of its content.
pub fn compose_tweet_prompt(name: &str, quoted: &str) -> (r: String)
    ensures
        r@ == tweet_prompt(name@, quoted@),
{
    let mut prompt: String = "Respond the tweet AS **".to_owned();
    prompt.append(name);
    prompt.append(
        "** would - only reply if your persona deems it necessary. When engaging:\n1. Use your character's unique voice and communication style naturally\n2. Keep responses to one authentic-sentence without hashtags\n3. Return ",
    );
    prompt.append(IGNORE_COMMAND);
    prompt.append(" if your persona wouldn't respond to this tweet\n\n## Tweet Content:\n");
    prompt.append(quoted);
    prompt
}

/// Writes the question about a tweet.
pub fn write_tweet_prompt(name: &str, content: &str) -> (r: String)
    ensures
        r@ == tweet_prompt(name@, debug_form(content@)),
{
    let quoted: String = to_debug_form(content);
    compose_tweet_prompt(name, quoted.as_str())
}

// ---------------------------------------------------------------------------------------------
// Laws
// ---------------------------------------------------------------------------------------------

/// Removing quotes undoes enclosing a text in quotes.
pub proof fn law_unquoted_undoes_enclosed(s: Seq<char>)
    ensures
        unquoted(enclosed(s)) == s,
{
    assert(enclosed(s).subrange(1, enclosed(s).len() - 1) =~= s);
}

/// Removing quotes takes away one enclosing pair or nothing.
pub proof fn law_unquoted_takes_one_pair(s: Seq<char>)
    ensures
        unquoted(s) == s || enclosed(unquoted(s)) == s,
{
    if s.len() >= 2 && s.first() == '"' && s.last() == '"' {
        assert(enclosed(unquoted(s)) =~= s);
    }
}

/// Quotes come off in pairs only: a text that starts and ends with a double quote loses its first
/// and its last character and keeps all others in order, and every other text stays as it is.
pub proof fn law_quotes_come_off_in_pairs(s: Seq<char>)
    ensures
        s.len() < 2 || s[0] != '"' || s[s.len() - 1] != '"' ==> unquoted(s) == s,
        s.len() >= 2 && s[0] == '"' && s[s.len() - 1] == '"' ==> {
            &&& unquoted(s).len() + 2 == s.len()
            &&& forall|i: int| 0 <= i < s.len() - 2 ==> #[trigger] unquoted(s)[i] == s[i + 1]
        },
        unquoted(seq!['"'] + s + seq!['"']) == s,
{
    let quoted = seq!['"'] + s + seq!['"'];
    assert(quoted.subrange(1, quoted.len() - 1) =~= s);
}

/// The six characters of `s` from `at` on are the ignore command, letter by letter.
pub open spec fn spells_ignore(s: Seq<char>, at: int) -> bool {
    &&& 0 <= at && at + 6 <= s.len()
    &&& s[at] == 'I' && s[at + 1] == 'G' && s[at + 2] == 'N'
    &&& s[at + 3] == 'O' && s[at + 4] == 'R' && s[at + 5] == 'E'
}

/// An answer of any length is declined exactly when it is empty or the letters I, G, N, O, R, E
/// follow one another somewhere in it, whatever stands before and after them.
pub proof fn law_declined_answers(answer: Seq<char>)
    ensures
        answer.len() == 0 ==> declines(answer),
        forall|at: int| #[trigger] spells_ignore(answer, at) ==> declines(answer),
        declines(answer) && answer.len() > 0 ==> exists|at: int|
            #[trigger] spells_ignore(answer, at),
{
    reveal_strlit("IGNORE");
    let word = IGNORE_COMMAND@;
    assert forall|at: int| #[trigger] spells_ignore(answer, at) implies declines(answer) by {
        assert(answer.subrange(at, at + 6) =~= word);
        assert(is_run_at(answer, word, at));
    }
    if declines(answer) && answer.len() > 0 {
        let at = choose|at: int| is_run_at(answer, word, at);
        let run = answer.subrange(at, at + 6);
        assert(run == word);
        assert(run[0] == answer[at] && run[1] == answer[at + 1] && run[2] == answer[at + 2]);
        assert(run[3] == answer[at + 3] && run[4] == answer[at + 4] && run[5] == answer[at + 5]);
        assert(spells_ignore(answer, at));
    }
}

/// A declined answer stays declined when it is part of a longer text.
pub proof fn law_declining_spreads(before: Seq<char>, answer: Seq<char>, after: Seq<char>)
    requires
        declines(answer),
        answer.len() > 0,
    ensures
        declines(before + answer + after),
{
    law_declined_answers(answer);
    law_declined_answers(before + answer + after);
    let at = choose|at: int| #[trigger] spells_ignore(answer, at);
    let whole = before + answer + after;
    let from = before.len() + at;
    assert(whole[from] == answer[at] && whole[from + 1] == answer[at + 1]);
    assert(whole[from + 2] == answer[at + 2] && whole[from + 3] == answer[at + 3]);
    assert(whole[from + 4] == answer[at + 4] && whole[from + 5] == answer[at + 5]);
    assert(spells_ignore(whole, from));
}

/// Two handles of any length name the same account exactly when their lowercase forms are equal; a
/// handle names the same account as itself.
pub proof fn law_same_handle(a: Seq<char>, b: Seq<char>)
    ensures
        lowercase(a) == lowercase(b) ==> same_handle(a, b),
        lowercase(a) != lowercase(b) ==> !same_handle(a, b),
        a == b ==> same_handle(a, b),
        same_handle(a, b) == same_handle(b, a),
{
}

/// A chat line starts with the whole username, goes on with a colon and a space, and ends with the
/// whole of what was said; nothing else stands in it.
pub proof fn law_chat_line(username: Seq<char>, quoted: Seq<char>)
    ensures
        ({
            let line = chat_line(username, quoted);
            let n = username.len() as int;
            &&& line.len() == n + 2 + quoted.len()
            &&& forall|i: int| 0 <= i < n ==> #[trigger] line[i] == username[i]
            &&& line[n] == ':' && line[n + 1] == ' '
            &&& forall|i: int|
                n + 2 <= i < line.len() ==> #[trigger] line[i] == quoted[i - n - 2]
        }),
{
    reveal_strlit(": ");
}

/// Where line `i` starts when lines stand one below the other: after the lines before it and one
/// line break for each of them.
pub open spec fn line_start(lines: Seq<Seq<char>>, i: int) -> int
    decreases i,
{
    if i <= 0 {
        0
    } else {
        line_start(lines, i - 1) + lines[i - 1].len() + 1
    }
}

/// Line `i` stands in `text` in full, at its place after the lines before it, and a line break
/// stands before it where it is not the first.
pub open spec fn line_stands(text: Seq<char>, lines: Seq<Seq<char>>, i: int) -> bool {
    let start = line_start(lines, i);
    &&& 0 <= start && start + lines[i].len() <= text.len()
    &&& text.subrange(start, start + lines[i].len()) == lines[i]
    &&& i > 0 ==> start > 0 && text[start - 1] == '\n'
}

/// `text` holds every one of the lines in full, at its place after the lines before it, with a line
/// break between neighbours, and nothing else.
pub open spec fn holds_lines(text: Seq<char>, lines: Seq<Seq<char>>) -> bool {
    &&& text.len() + 1 == line_start(lines, lines.len() as int)
    &&& forall|i: int| 0 <= i < lines.len() ==> #[trigger] line_stands(text, lines, i)
}

proof fn lemma_line_start(lines: Seq<Seq<char>>, more: Seq<Seq<char>>, i: int)
    requires
        i <= lines.len() <= more.len(),
        forall|j: int| 0 <= j < lines.len() ==> #[trigger] more[j] == lines[j],
    ensures
        line_start(more, i) == line_start(lines, i),
    decreases i,
{
    if i > 0 {
        lemma_line_start(lines, more, i - 1);
        assert(more[i - 1] == lines[i - 1]);
    }
}

/// A line that stands in a text still does when one more line is put below it.
proof fn lemma_line_still_stands(
    above: Seq<char>,
    before: Seq<Seq<char>>,
    line: Seq<char>,
    i: int,
)
    requires
        0 <= i < before.len(),
        line_stands(above, before, i),
    ensures
        line_stands(above + seq!['\n'] + line, before.push(line), i),
{
    let text = above + seq!['\n'] + line;
    let start = line_start(before, i);
    lemma_line_start(before, before.push(line), i);
    assert(before.push(line)[i] == before[i]);
    assert(text.subrange(start, start + before[i].len()) =~= above.subrange(
        start,
        start + before[i].len(),
    ));
}

/// One more line that is put below others stands at its place.
proof fn lemma_last_line_stands(above: Seq<char>, before: Seq<Seq<char>>, line: Seq<char>)
    requires
        before.len() > 0,
        above.len() + 1 == line_start(before, before.len() as int),
    ensures
        line_stands(above + seq!['\n'] + line, before.push(line), before.len() as int),
        line_start(before.push(line), before.len() as int + 1) == above.len() + 1 + line.len() + 1,
{
    let n = before.len() as int;
    let lines = before.push(line);
    let text = above + seq!['\n'] + line;
    lemma_line_start(before, lines, n);
    assert(lines[n] == line);
    let start = above.len() as int + 1;
    assert(text.subrange(start, start + line.len()) =~= line);
}

proof fn lemma_stacked_push(lines: Seq<Seq<char>>, line: Seq<char>)
    requires
        lines.len() > 0,
    ensures
        stacked(lines.push(line)) == stacked(lines) + seq!['\n'] + line,
{
    reveal_strlit("\n");
    let join = |above: Seq<char>, line: Seq<char>| above + "\n"@ + line;
    let more = lines.push(line);
    assert(more.skip(1).drop_last() =~= lines.skip(1));
    assert(more.skip(1).last() == line);
    assert(more.skip(1).fold_left(more[0], join) == join(
        lines.skip(1).fold_left(lines[0], join),
        line,
    ));
    assert("\n"@ =~= seq!['\n']);
}

/// Lines one below the other are all there, whole and in order, with one line break between
/// neighbours: no line and no part of one is lost, however many there are.
pub proof fn law_stacked_lines_are_all_there(lines: Seq<Seq<char>>)
    ensures
        lines.len() == 0 ==> stacked(lines).len() == 0,
        lines.len() > 0 ==> holds_lines(stacked(lines), lines),
    decreases lines.len(),
{
    if lines.len() == 1 {
        assert(lines.skip(1) =~= Seq::empty());
        assert(stacked(lines) == lines[0]);
        assert(lines[0].subrange(0, lines[0].len() as int) =~= lines[0]);
        assert(line_start(lines, 1) == line_start(lines, 0) + lines[0].len() + 1);
        assert(line_stands(stacked(lines), lines, 0));
    } else if lines.len() > 1 {
        let before = lines.drop_last();
        let last = lines.last();
        let above = stacked(before);
        law_stacked_lines_are_all_there(before);
        lemma_stacked_push(before, last);
        assert(before.push(last) =~= lines);
        lemma_last_line_stands(above, before, last);
        assert forall|i: int| 0 <= i < lines.len() implies #[trigger] line_stands(
            stacked(lines),
            lines,
            i,
        ) by {
            if i < before.len() {
                assert(line_stands(above, before, i));
                lemma_line_still_stands(above, before, last, i);
            }
        }
    }
}

/// What the model reads of a mention in a conversation of two or more lines is every line of it,
/// whole and in order; of a mention that stands alone, it is the mention's text.
pub proof fn law_conversation_holds_every_line(text: Seq<char>, lines: Seq<Seq<char>>)
    ensures
        lines.len() >= 2 ==> holds_lines(conversation(text, lines), lines),
        lines.len() < 2 ==> conversation(text, lines) == text,
{
    law_stacked_lines_are_all_there(lines);
}

/// The question about a tweet holds the whole name and ends with the whole content. All that stands
/// around them is the same for every name and every content.
pub proof fn law_tweet_prompt(
    name: Seq<char>,
    quoted: Seq<char>,
    other_name: Seq<char>,
    other_quoted: Seq<char>,
)
    ensures
        ({
            let prompt = tweet_prompt(name, quoted);
            let other = tweet_prompt(other_name, other_quoted);
            let n = 23 + name.len() as int;
            let m = 23 + other_name.len() as int;
            let fixed = prompt.len() - name.len() - quoted.len();
            &&& fixed >= 23
            &&& other.len() - other_name.len() - other_quoted.len() == fixed
            &&& prompt.take(23) == other.take(23)
            &&& prompt.subrange(23, n) == name
            &&& prompt.subrange(n, n - 23 + fixed) == other.subrange(
                m,
                m - 23 + fixed,
            )
            &&& prompt.skip(n - 23 + fixed) == quoted
        }),
{
    reveal_strlit("Respond the tweet AS **");
    let before = "Respond the tweet AS **"@;
    let between = "** would - only reply if your persona deems it necessary. When engaging:\n1. Use your character's unique voice and communication style naturally\n2. Keep responses to one authentic-sentence without hashtags\n3. Return "@
        + IGNORE_COMMAND@
        + " if your persona wouldn't respond to this tweet\n\n## Tweet Content:\n"@;
    let prompt = tweet_prompt(name, quoted);
    let other = tweet_prompt(other_name, other_quoted);
    assert(prompt =~= before + name + between + quoted);
    assert(other =~= before + other_name + between + other_quoted);
    let n = 23 + name.len() as int;
    let m = 23 + other_name.len() as int;
    let fixed = 23 + between.len() as int;
    assert(prompt.take(23) =~= before);
    assert(other.take(23) =~= before);
    assert(prompt.subrange(23, n) =~= name);
    assert(prompt.subrange(n, n - 23 + fixed) =~= between);
    assert(other.subrange(m, m - 23 + fixed) =~= between);
    assert(prompt.skip(n - 23 + fixed) =~= quoted);
}

} // verus!
