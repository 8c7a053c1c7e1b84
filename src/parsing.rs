use vstd::prelude::*;
use vstd::string::StrSliceExecFns;
use crate::enums::TokenType;
use crate::errors::ParseError;
use crate::parse_utils::get_token_type;
use crate::parse_utils::is_letter_or_digit;
use crate::parse_utils::is_operator;
use crate::parse_utils::is_separator;
use crate::parse_utils::spec_is_letter_or_digit;
use crate::parse_utils::spec_is_operator;
use crate::parse_utils::spec_is_separator;
use crate::parse_utils::token_kind;
use crate::structs::Token;

verus! {

/// The mathematical value of a token.
pub struct Lexeme {
    pub text: Seq<char>,
    pub token_type: TokenType,
    pub line_number: nat,
    pub char_number: nat,
}

pub open spec fn lexeme_of(t: Token) -> Lexeme {
    Lexeme {
        text: t.text@,
        token_type: t.token_type,
        line_number: t.line_number as nat,
        char_number: t.char_number as nat,
    }
}

pub open spec fn lexemes(ts: Seq<Token>) -> Seq<Lexeme> {
    ts.map_values(|t: Token| lexeme_of(t))
}

/// The characters that may stand in a word.
pub open spec fn is_word_char(c: char) -> bool {
    spec_is_letter_or_digit(c) || c == '_'
}

/// Characters that only separate lexemes.
pub open spec fn is_blank(c: char) -> bool {
    c == '\r' || c == '\t' || c == ' ' || c == '\\'
}

/// The end of the word that starts at position `i`.
pub open spec fn word_end(code: Seq<char>, i: int) -> int
    decreases code.len() - i,
{
    if 0 <= i < code.len() && is_word_char(code[i]) {
        word_end(code, i + 1)
    } else {
        i
    }
}

/// The position of the first double quote at or after `i`, or the end.
pub open spec fn quote_end(code: Seq<char>, i: int) -> int
    decreases code.len() - i,
{
    if 0 <= i < code.len() && code[i] != '"' {
        quote_end(code, i + 1)
    } else {
        i
    }
}

/// The lexeme that starts at position `i`, which holds no blank: its text,
/// its kind and the position after it. A string loses its quotes, a
/// character literal its apostrophes; an operator takes a second operator
/// character along.
pub open spec fn scan(code: Seq<char>, i: int) -> Result<(Seq<char>, TokenType, int), ParseError> {
    let c = code[i];
    if c == '"' {
        let e = quote_end(code, i + 1);
        if e >= code.len() {
            Err(ParseError::UnterminatedString)
        } else {
            Ok((code.subrange(i + 1, e), TokenType::StringValue, e + 1))
        }
    } else if c == '\'' {
        if i + 2 >= code.len() {
            Err(ParseError::UnexpectedValue)
        } else if code[i + 2] != '\'' {
            Err(ParseError::UnterminatedChar)
        } else {
            Ok((seq![code[i + 1]], TokenType::CharValue, i + 3))
        }
    } else if spec_is_operator(c) {
        let n = if i + 1 < code.len() && spec_is_operator(code[i + 1]) {
            2int
        } else {
            1int
        };
        Ok((code.subrange(i, i + n), token_kind(code.subrange(i, i + n)), i + n))
    } else if spec_is_separator(c) {
        Ok((seq![c], token_kind(seq![c]), i + 1))
    } else {
        let e = word_end(code, i);
        Ok((code.subrange(i, e), token_kind(code.subrange(i, e)), e))
    }
}

/// How many characters are left from position `i` on.
pub open spec fn chars_left(code: Seq<char>, i: int) -> nat {
    if 0 <= i < code.len() {
        (code.len() - i) as nat
    } else {
        0
    }
}

/// The lexemes read from position `i` on, at line `line` after `col`
/// characters of it, after `acc`, the last lexeme having kind `last`; and
/// the error that stopped the reading, if any. Lines count from 0, columns
/// from 1. After a comment marker, the end of the line gives an
/// `EndComment` lexeme.
pub open spec fn lex_from(
    code: Seq<char>,
    i: int,
    line: nat,
    col: nat,
    last: TokenType,
    was_comment: bool,
    acc: Seq<Lexeme>,
) -> (Seq<Lexeme>, Option<ParseError>)
    decreases chars_left(code, i),
{
    if !(0 <= i < code.len()) {
        (acc, None)
    } else {
        let in_comment = was_comment || last == TokenType::Comment;
        let c = code[i];
        if c == '\n' {
            lex_from(
                code,
                i + 1,
                line + 1,
                0,
                last,
                false,
                if in_comment {
                    acc.push(
                        Lexeme {
                            text: Seq::empty(),
                            token_type: TokenType::EndComment,
                            line_number: line,
                            char_number: col + 1,
                        },
                    )
                } else {
                    acc
                },
            )
        } else if is_blank(c) {
            lex_from(code, i + 1, line, col + 1, last, in_comment, acc)
        } else {
            match scan(code, i) {
                Err(e) => (acc, Some(e)),
                Ok((t, k, j)) => {
                    let next = if j > i {
                        j
                    } else {
                        i + 1
                    };
                    lex_from(
                        code,
                        next,
                        line,
                        (col + (next - i)) as nat,
                        k,
                        in_comment,
                        acc.push(
                            Lexeme { text: t, token_type: k, line_number: line, char_number: col + 1 },
                        ),
                    )
                },
            }
        }
    }
}

/// The tokens of a source text, and the error that stopped the reading, if
/// any; an empty text is an error.
pub open spec fn lex(code: Seq<char>) -> (Seq<Lexeme>, Option<ParseError>) {
    if code.len() == 0 {
        (Seq::empty(), Some(ParseError::CodeLengthIsZero))
    } else {
        lex_from(code, 0, 0, 0, TokenType::Na, false, Seq::empty())
    }
}

/// The state of the lexer: the source, the position in it and the tokens
/// read so far.
pub struct ParseData<'a> {
    pub token_list: Vec<Token>,
    pub last_token: TokenType,
    pub character_index: usize,
    pub code: &'a str,
    pub code_length: usize,
    pub line_count: usize,
    pub char_count: usize,
    pub was_comment: bool,
}

impl<'a> ParseData<'a> {
    pub open spec fn wf(&self) -> bool {
        &&& self.code_length == self.code@.len()
        &&& self.character_index <= self.code_length
        &&& self.line_count <= self.character_index
        &&& self.char_count <= self.character_index
    }

    /// What reading the rest of the source gives.
    pub open spec fn outcome(&self) -> (Seq<Lexeme>, Option<ParseError>) {
        lex_from(
            self.code@,
            self.character_index as int,
            self.line_count as nat,
            self.char_count as nat,
            self.last_token,
            self.was_comment,
            lexemes(self.token_list@),
        )
    }
}

/// A token at the current line, at the column after `char_count`.
fn make_token(parse_data: &ParseData, text: &str, token_type: TokenType) -> (r: Token)
    requires
        parse_data.wf(),
        parse_data.character_index < parse_data.code_length,
    ensures
        lexeme_of(r) == (Lexeme {
            text: text@,
            token_type,
            line_number: parse_data.line_count as nat,
            char_number: parse_data.char_count as nat + 1,
        }),
{
    Token {
        text: text.to_owned(),
        token_type,
        line_number: parse_data.line_count,
        char_number: parse_data.char_count + 1,
    }
}

/// Passes over a line break or a blank at the cursor, answering whether it
/// did; a line break after a comment marker gives an `EndComment` token.
fn should_skip(parse_data: &mut ParseData) -> (r: bool)
    requires
        old(parse_data).wf(),
        old(parse_data).character_index < old(parse_data).code_length,
    ensures
        final(parse_data).wf(),
        final(parse_data).code == old(parse_data).code,
        final(parse_data).outcome() == old(parse_data).outcome(),
        r == (old(parse_data).code@[old(parse_data).character_index as int] == '\n' || is_blank(
            old(parse_data).code@[old(parse_data).character_index as int],
        )),
        r ==> final(parse_data).character_index == old(parse_data).character_index + 1,
        !r ==> final(parse_data).character_index == old(parse_data).character_index
            && final(parse_data).token_list == old(parse_data).token_list
            && final(parse_data).line_count == old(parse_data).line_count
            && final(parse_data).char_count == old(parse_data).char_count
            && final(parse_data).last_token == old(parse_data).last_token
            && final(parse_data).was_comment == (old(parse_data).was_comment
            || old(parse_data).last_token == TokenType::Comment),
{
    let ghost start = *parse_data;
    if parse_data.last_token == TokenType::Comment {
        parse_data.was_comment = true;
    }
    let current_char: char = parse_data.code.get_char(parse_data.character_index);
    if current_char == '\n' {
        if parse_data.was_comment {
            let token = make_token(parse_data, "", TokenType::EndComment);
            proof {
                reveal_strlit("");
                assert(""@ =~= Seq::<char>::empty());
            }
            let ghost before = parse_data.token_list@;
            parse_data.token_list.push(token);
            assert(lexemes(parse_data.token_list@) =~= lexemes(before).push(lexeme_of(token)));
            parse_data.was_comment = false;
        }
        parse_data.line_count += 1;
        parse_data.char_count = 0;
        parse_data.character_index += 1;
        assert(start.outcome() == parse_data.outcome());
        return true;
    }
    if current_char == '\r' || current_char == '\t' || current_char == ' ' || current_char == '\\' {
        parse_data.char_count += 1;
        parse_data.character_index += 1;
        assert(start.outcome() == parse_data.outcome());
        return true;
    }
    false
}

/// `after` differs from `before` in the position alone.
pub open spec fn only_moved<'a>(before: ParseData<'a>, after: ParseData<'a>) -> bool {
    &&& after.token_list == before.token_list
    &&& after.last_token == before.last_token
    &&& after.code == before.code
    &&& after.code_length == before.code_length
    &&& after.line_count == before.line_count
    &&& after.char_count == before.char_count
    &&& after.was_comment == before.was_comment
}

/// Reading the lexeme at the cursor of `before` gave `t` and left `after`:
/// as `scan` says, the token with its text, kind and position and the cursor
/// after it, or the error.
pub open spec fn scanned<'a>(
    before: ParseData<'a>,
    after: ParseData<'a>,
    t: Token,
    error_before: Option<ParseError>,
    error_after: Option<ParseError>,
) -> bool {
    &&& only_moved(before, after)
    &&& match scan(before.code@, before.character_index as int) {
        Ok((text, k, j)) => {
            &&& lexeme_of(t) == (Lexeme {
                text,
                token_type: k,
                line_number: before.line_count as nat,
                char_number: before.char_count as nat + 1,
            })
            &&& after.character_index == j
            &&& after.wf()
            &&& error_after == error_before
        },
        Err(e) => error_after == Some(e),
    }
}

pub proof fn lemma_word_end_bounds(code: Seq<char>, i: int)
    requires
        0 <= i <= code.len(),
    ensures
        i <= word_end(code, i) <= code.len(),
        forall|k: int| i <= k < word_end(code, i) ==> is_word_char(#[trigger] code[k]),
    decreases code.len() - i,
{
    if i < code.len() && is_word_char(code[i]) {
        lemma_word_end_bounds(code, i + 1);
    }
}

pub proof fn lemma_quote_end_bounds(code: Seq<char>, i: int)
    requires
        0 <= i <= code.len(),
    ensures
        i <= quote_end(code, i) <= code.len(),
        forall|k: int| i <= k < quote_end(code, i) ==> #[trigger] code[k] != '"',
    decreases code.len() - i,
{
    if i < code.len() && code[i] != '"' {
        lemma_quote_end_bounds(code, i + 1);
    }
}

/// Reads a string literal; the cursor is on its opening quote.
fn read_string(parse_data: &mut ParseData, parse_error: &mut Option<ParseError>) -> (r: Token)
    requires
        old(parse_data).wf(),
        old(parse_data).character_index < old(parse_data).code_length,
        old(parse_data).code@[old(parse_data).character_index as int] == '"',
    ensures
        scanned(*old(parse_data), *final(parse_data), r, *old(parse_error), *final(parse_error)),
{
    let ghost code = parse_data.code@;
    let start: usize = parse_data.character_index;
    let mut i: usize = start + 1;
    proof {
        lemma_quote_end_bounds(code, start + 1);
    }
    while i < parse_data.code_length
        invariant
            parse_data.wf(),
            code == parse_data.code@,
            start < i <= parse_data.code_length,
            start == old(parse_data).character_index,
            only_moved(*old(parse_data), *parse_data),
            parse_data.character_index == start,
            *parse_error == *old(parse_error),
            code[start as int] == '"',
            quote_end(code, start + 1) == quote_end(code, i as int),
        decreases parse_data.code_length - i,
    {
        if parse_data.code.get_char(i) == '"' {
            assert(quote_end(code, i as int) == i);
            let text: &str = parse_data.code.substring_char(start + 1, i);
            let token = make_token(parse_data, text, TokenType::StringValue);
            parse_data.character_index = i + 1;
            return token;
        }
        i += 1;
    }
    *parse_error = Some(ParseError::UnterminatedString);
    crate::structs::empty_token()
}

/// Reads a character literal; the cursor is on its opening apostrophe.
fn read_char(parse_data: &mut ParseData, parse_error: &mut Option<ParseError>) -> (r: Token)
    requires
        old(parse_data).wf(),
        old(parse_data).character_index < old(parse_data).code_length,
        old(parse_data).code@[old(parse_data).character_index as int] == '\'',
    ensures
        scanned(*old(parse_data), *final(parse_data), r, *old(parse_error), *final(parse_error)),
{
    let start: usize = parse_data.character_index;
    if parse_data.code_length - start <= 2 {
        *parse_error = Some(ParseError::UnexpectedValue);
        return crate::structs::empty_token();
    }
    if parse_data.code.get_char(start + 2) != '\'' {
        *parse_error = Some(ParseError::UnterminatedChar);
        return crate::structs::empty_token();
    }
    let text: &str = parse_data.code.substring_char(start + 1, start + 2);
    let token = make_token(parse_data, text, TokenType::CharValue);
    assert(text@ =~= seq![parse_data.code@[start + 1]]);
    parse_data.character_index = start + 3;
    token
}

/// Reads an operator of one or two characters.
fn read_operator(parse_data: &mut ParseData) -> (r: Token)
    requires
        old(parse_data).wf(),
        old(parse_data).character_index < old(parse_data).code_length,
        spec_is_operator(old(parse_data).code@[old(parse_data).character_index as int]),
        old(parse_data).code@[old(parse_data).character_index as int] != '"',
        old(parse_data).code@[old(parse_data).character_index as int] != '\'',
    ensures
        forall|e: Option<ParseError>| scanned(*old(parse_data), *final(parse_data), r, e, e),
{
    let start: usize = parse_data.character_index;
    let mut end: usize = start + 1;
    if end < parse_data.code_length && is_operator(parse_data.code.get_char(end)) {
        end = end + 1;
    }
    let text: String = parse_data.code.substring_char(start, end).to_owned();
    let token_type = get_token_type(&text);
    let token = make_token(parse_data, text.as_str(), token_type);
    parse_data.character_index = end;
    token
}

/// Reads a punctuation mark.
fn read_separator(parse_data: &mut ParseData) -> (r: Token)
    requires
        old(parse_data).wf(),
        old(parse_data).character_index < old(parse_data).code_length,
        spec_is_separator(old(parse_data).code@[old(parse_data).character_index as int]),
        !spec_is_operator(old(parse_data).code@[old(parse_data).character_index as int]),
        old(parse_data).code@[old(parse_data).character_index as int] != '"',
        old(parse_data).code@[old(parse_data).character_index as int] != '\'',
    ensures
        forall|e: Option<ParseError>| scanned(*old(parse_data), *final(parse_data), r, e, e),
{
    let start: usize = parse_data.character_index;
    let text: String = parse_data.code.substring_char(start, start + 1).to_owned();
    assert(text@ =~= seq![parse_data.code@[start as int]]);
    let token_type = get_token_type(&text);
    let token = make_token(parse_data, text.as_str(), token_type);
    parse_data.character_index = start + 1;
    token
}

fn is_word_char_at(code: &str, i: usize) -> (r: bool)
    requires
        i < code@.len(),
    ensures
        r == is_word_char(code@[i as int]),
{
    let current_char: char = code.get_char(i);
    is_letter_or_digit(current_char) || current_char == '_'
}

/// Reads a word: letters, digits and underscores, perhaps none.
fn read_word(parse_data: &mut ParseData) -> (r: Token)
    requires
        old(parse_data).wf(),
        old(parse_data).character_index < old(parse_data).code_length,
        !spec_is_separator(old(parse_data).code@[old(parse_data).character_index as int]),
        !spec_is_operator(old(parse_data).code@[old(parse_data).character_index as int]),
        old(parse_data).code@[old(parse_data).character_index as int] != '"',
        old(parse_data).code@[old(parse_data).character_index as int] != '\'',
    ensures
        forall|e: Option<ParseError>| scanned(*old(parse_data), *final(parse_data), r, e, e),
{
    let ghost code = parse_data.code@;
    let start: usize = parse_data.character_index;
    let mut end: usize = start;
    proof {
        lemma_word_end_bounds(code, start as int);
    }
    while end < parse_data.code_length && is_word_char_at(parse_data.code, end)
        invariant
            parse_data.wf(),
            code == parse_data.code@,
            start <= end <= parse_data.code_length,
            start == parse_data.character_index,
            parse_data == old(parse_data),
            word_end(code, start as int) == word_end(code, end as int),
        decreases parse_data.code_length - end,
    {
        end += 1;
    }
    assert(word_end(code, end as int) == end);
    let text: String = parse_data.code.substring_char(start, end).to_owned();
    let token_type = get_token_type(&text);
    let token = make_token(parse_data, text.as_str(), token_type);
    parse_data.character_index = end;
    token
}

/// Reads the lexeme at the cursor, chosen by its first character.
fn get_token(parse_data: &mut ParseData, parse_error: &mut Option<ParseError>) -> (r: Token)
    requires
        old(parse_data).wf(),
        old(parse_data).character_index < old(parse_data).code_length,
    ensures
        scanned(*old(parse_data), *final(parse_data), r, *old(parse_error), *final(parse_error)),
{
    let current_char: char = parse_data.code.get_char(parse_data.character_index);
    if current_char == '"' {
        return read_string(parse_data, parse_error);
    }
    if current_char == '\'' {
        return read_char(parse_data, parse_error);
    }
    if is_operator(current_char) {
        return read_operator(parse_data);
    }
    if is_separator(current_char) {
        return read_separator(parse_data);
    }
    read_word(parse_data)
}

/// One step of the lexer: passes over a blank or a line break, or reads one
/// lexeme. What the rest of the source gives stays the same; on an error,
/// the tokens read so far and the error are what it gives.
fn process_character(parse_data: &mut ParseData, parse_error: &mut Option<ParseError>)
    requires
        old(parse_data).wf(),
        old(parse_data).character_index < old(parse_data).code_length,
        *old(parse_error) == None::<ParseError>,
    ensures
        final(parse_data).code == old(parse_data).code,
        *final(parse_error) == None::<ParseError> ==> final(parse_data).wf(),
        *final(parse_error) == None::<ParseError> ==> final(parse_data).outcome()
            == old(parse_data).outcome() && final(parse_data).character_index
            > old(parse_data).character_index,
        *final(parse_error) != None::<ParseError> ==> old(parse_data).outcome() == (
            lexemes(final(parse_data).token_list@),
            *final(parse_error),
        ),
{
    if should_skip(parse_data) {
        return;
    }
    let ghost before = *parse_data;
    let previous_character_index: usize = parse_data.character_index;
    proof {
        lemma_word_end_bounds(before.code@, previous_character_index as int);
        lemma_quote_end_bounds(before.code@, previous_character_index + 1);
    }
    let token: Token = get_token(parse_data, parse_error);
    if parse_error.is_some() {
        return;
    }
    if previous_character_index == parse_data.character_index {
        parse_data.character_index += 1;
    }
    parse_data.char_count = parse_data.char_count + (parse_data.character_index
        - previous_character_index);
    let ghost tokens_before = parse_data.token_list@;
    parse_data.token_list.push(token.clone());
    parse_data.last_token = token.token_type;
    assert(lexemes(parse_data.token_list@) =~= lexemes(tokens_before).push(lexeme_of(token)));
    assert(before.outcome() == parse_data.outcome());
}

/// Turns a source text into tokens. On failure `parse_error` holds the error
/// and the tokens are those read before it.
pub fn parse_to_tokens(code: &String, parse_error: &mut Option<ParseError>) -> (r: Vec<Token>)
    ensures
        lexemes(r@) == lex(code@).0,
        *final(parse_error) == lex(code@).1,
{
    let text: &str = code.as_str();
    let mut parse_data = ParseData {
        token_list: Vec::new(),
        last_token: TokenType::Na,
        character_index: 0,
        code: text,
        code_length: text.unicode_len(),
        line_count: 0,
        char_count: 0,
        was_comment: false,
    };
    assert(lexemes(parse_data.token_list@) =~= Seq::<Lexeme>::empty());
    if parse_data.code_length == 0 {
        *parse_error = Some(ParseError::CodeLengthIsZero);
        return parse_data.token_list;
    }
    *parse_error = None;
    let string_length: usize = parse_data.code_length;
    while parse_data.character_index < string_length
        invariant
            parse_data.wf(),
            parse_data.code@ == code@,
            string_length == parse_data.code_length,
            *parse_error == None::<ParseError>,
            parse_data.outcome() == lex(code@),
        decreases string_length - parse_data.character_index,
    {
        process_character(&mut parse_data, parse_error);
        if parse_error.is_some() {
            return parse_data.token_list;
        }
    }
    parse_data.token_list
}

} // verus!
