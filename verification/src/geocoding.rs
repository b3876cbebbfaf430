use crate::chars::{
    chars_of, lemma_split_on_one_separator, split_chars, split_on, string_of, trim_chars, trimmed,
};
use crate::models::{Message, OutputBlock, OutputContent, ResponseBody};
use vstd::prelude::*;

verus! {

/// Asks the language model service where an event takes place.
pub struct GeocodingService;

/// The instruction the geocoding model is given before the event text.
pub const SYSTEM_INSTRUCTION: &'static str = "[REDACTED_SYSTEM_PROMPT]";

/// The model that geocoding requests name.
pub const GEOCODING_MODEL: &'static str = "gpt-4o-mini";

/// The token budget of a geocoding answer.
pub const MAX_OUTPUT_TOKENS: u32 = 50;

/// Why a coordinate text could not be read.
#[derive(Debug, Clone, Copy, PartialEq, Eq, Structural)]
pub enum CoordinateError {
    /// The text does not hold exactly two comma-separated values.
    WrongValueCount,
    /// The first value is not a number.
    BadLatitude,
    /// The second value is not a number.
    BadLongitude,
}

impl CoordinateError {
    /// The message reported for the error.
    pub open spec fn text(self) -> Seq<char> {
        match self {
            CoordinateError::WrongValueCount => "Expected two values separated by a comma"@,
            CoordinateError::BadLatitude => "Failed to parse latitude"@,
            CoordinateError::BadLongitude => "Failed to parse longitude"@,
        }
    }

    /// The message reported for the error.
    pub fn message(&self) -> (s: &'static str)
        ensures
            s@ == self.text(),
    {
        match self {
            CoordinateError::WrongValueCount => "Expected two values separated by a comma",
            CoordinateError::BadLatitude => "Failed to parse latitude",
            CoordinateError::BadLongitude => "Failed to parse longitude",
        }
    }
}

/// The texts of the pieces of content in an answer block.
pub open spec fn block_texts(b: OutputBlock) -> Seq<Seq<char>> {
    match b.content {
        Some(v) => v@.map_values(|c: OutputContent| match c {
            OutputContent::OutputText { text } => text@,
        }),
        None => Seq::<Seq<char>>::empty(),
    }
}

/// The texts of every answer block, in order.
pub open spec fn answer_texts(blocks: Seq<OutputBlock>) -> Seq<Seq<char>>
    decreases blocks.len(),
{
    if blocks.len() == 0 {
        Seq::<Seq<char>>::empty()
    } else {
        block_texts(blocks[0]) + answer_texts(blocks.skip(1))
    }
}

/// The first text of an answer, or the empty text when it holds none.
pub open spec fn first_answer_text(body: ResponseBody) -> Seq<char> {
    let texts = answer_texts(body.output@);
    if texts.len() > 0 {
        texts[0]
    } else {
        Seq::<char>::empty()
    }
}

/// The pieces of a coordinate text: the comma-separated values, trimmed.
pub open spec fn coordinate_values(s: Seq<char>) -> Seq<Seq<char>> {
    split_on(s, ',').map_values(|p: Seq<char>| trimmed(p))
}

/// The two trimmed values of a coordinate text, or the error when it does
/// not hold exactly two.
pub open spec fn coordinate_pair(s: Seq<char>) -> Result<(Seq<char>, Seq<char>), CoordinateError> {
    let parts = coordinate_values(s);
    if parts.len() != 2 {
        Err(CoordinateError::WrongValueCount)
    } else {
        Ok((parts[0], parts[1]))
    }
}

impl GeocodingService {
    /// The messages of a geocoding request: the instruction, then the event text.
    pub fn request_messages(address_info: &str) -> (r: Vec<Message>)
        ensures
            r@.len() == 2,
            r@[0].role@ == "system"@,
            r@[0].content@ == SYSTEM_INSTRUCTION@,
            r@[1].role@ == "user"@,
            r@[1].content@ == address_info@,
    {
        let mut r: Vec<Message> = Vec::new();
        r.push(Message { role: "system".to_string(), content: SYSTEM_INSTRUCTION.to_string() });
        r.push(Message { role: "user".to_string(), content: address_info.to_string() });
        r
    }

    /// The first text the model answered with, or the empty text.
    pub fn first_output_text(body: &ResponseBody) -> (r: String)
        ensures
            r@ == first_answer_text(*body),
    {
        let blocks = &body.output;
        let mut i: usize = 0;
        assert(blocks@.skip(0) =~= blocks@);
        while i < blocks.len()
            invariant
                i <= blocks@.len(),
                blocks@ == body.output@,
                answer_texts(blocks@) == answer_texts(blocks@.skip(i as int)),
            decreases blocks.len() - i,
        {
            let ghost rest = blocks@.skip(i as int);
            assert(rest[0] == blocks@[i as int]);
            assert(rest.skip(1) =~= blocks@.skip(i + 1));
            match &blocks[i].content {
                Some(contents) => {
                    if contents.len() > 0 {
                        match &contents[0] {
                            OutputContent::OutputText { text } => {
                                assert(block_texts(blocks@[i as int])[0] == text@);
                                assert(answer_texts(rest) == block_texts(rest[0]) + answer_texts(
                                    rest.skip(1),
                                ));
                                assert((block_texts(rest[0]) + answer_texts(rest.skip(1)))[0]
                                    == text@);
                                return text.clone();
                            },
                        }
                    }
                    assert(block_texts(blocks@[i as int]) =~= Seq::<Seq<char>>::empty());
                },
                None => {},
            }
            assert(answer_texts(rest) =~= answer_texts(rest.skip(1)));
            i = i + 1;
        }
        assert(answer_texts(blocks@.skip(i as int)) =~= Seq::<Seq<char>>::empty());
        String::new()
    }

    /// The two trimmed, comma-separated values of a coordinate text, before
    /// they are read as numbers.
    pub fn split_coordinates(coord_str: &str) -> (r: Result<(String, String), CoordinateError>)
        ensures
            match (r, coordinate_pair(coord_str@)) {
                (Ok((a, b)), Ok((x, y))) => a@ == x && b@ == y,
                (Err(e), Err(f)) => e == f,
                _ => false,
            },
    {
        let parts = split_chars(chars_of(coord_str).as_slice(), ',');
        proof {
            assert(crate::chars::views(parts@) == split_on(coord_str@, ','));
        }
        if parts.len() != 2 {
            return Err(CoordinateError::WrongValueCount);
        }
        let lat = trim_chars(parts[0].as_slice());
        let lon = trim_chars(parts[1].as_slice());
        assert(crate::chars::views(parts@)[0] == parts@[0]@);
        assert(crate::chars::views(parts@)[1] == parts@[1]@);
        Ok((string_of(lat.as_slice()), string_of(lon.as_slice())))
    }
}

/// A latitude and a longitude text joined by one comma come back from the
/// coordinate splitter as the two texts, each trimmed of white space.
pub proof fn lemma_coordinate_pair_of_joined(lat: Seq<char>, lon: Seq<char>)
    requires
        !lat.contains(','),
        !lon.contains(','),
    ensures
        coordinate_pair(lat + seq![','] + lon) == Ok::<_, CoordinateError>((trimmed(lat), trimmed(lon))),
{
    lemma_split_on_one_separator(lat, lon, ',');
    let parts = coordinate_values(lat + seq![','] + lon);
    assert(parts =~= seq![trimmed(lat), trimmed(lon)]);
}

} // verus!
