//! Counts, raw counts, and the parsers that turn the one into the other.

use tonic::Status;
use vstd::prelude::*;

verus! {

/// Parses the raw count info into the count.
pub trait CountRawParser: Send + Sync {
    /// `res` is a result that `parse` may give for the bytes `raw`.
    spec fn gives_count(&self, raw: Seq<u8>, res: Result<u64, Status>) -> bool;

    fn parse(&self, count_raw: &[u8]) -> (res: Result<u64, Status>)
        ensures
            self.gives_count(count_raw@, res),
    ;
}

/// A [`CountRawParser`] made of a function.
pub struct CntRawParserFn<F: Fn(&[u8]) -> Result<u64, Status>> {
    parser: F,
}

impl<F: Fn(&[u8]) -> Result<u64, Status>> CntRawParserFn<F> {
    /// The function this parser calls.
    pub closed spec fn function(&self) -> F {
        self.parser
    }

    /// The function accepts every byte slice.
    #[verifier::type_invariant]
    spec fn total(&self) -> bool {
        forall|raw: &[u8]| #[trigger] call_requires(self.parser, (raw,))
    }
}

impl<F> CountRawParser for CntRawParserFn<F> where
    F: Fn(&[u8]) -> Result<u64, Status> + Send + Sync,
 {
    open spec fn gives_count(&self, raw: Seq<u8>, res: Result<u64, Status>) -> bool {
        exists|bytes: &[u8]| bytes@ == raw && #[trigger] call_ensures(self.function(), (bytes,), res)
    }

    fn parse(&self, count_raw: &[u8]) -> (res: Result<u64, Status>)
        ensures
            call_ensures(self.function(), (count_raw,), res),
    {
        proof {
            use_type_invariant(self);
        }
        let res = (self.parser)(count_raw);
        assert(call_ensures(self.function(), (count_raw,), res));
        res
    }
}

/// Makes a [`CountRawParser`] that calls `parser`.
pub fn cnt_raw_parser_new_fn<F>(parser: F) -> (p: CntRawParserFn<F>) where
    F: Fn(&[u8]) -> Result<u64, Status> + Send + Sync,

    requires
        forall|raw: &[u8]| #[trigger] call_requires(parser, (raw,)),
    ensures
        p.function() == parser,
{
    CntRawParserFn { parser }
}

/// What a count source built of a raw source and a parser answers, given what
/// the raw source answered: the raw source's failure as it is, else a result
/// that the parser gives for the bytes.
pub open spec fn parsed_count<P: CountRawParser>(
    parser: P,
    raw: Result<Vec<u8>, Status>,
    res: Result<u64, Status>,
) -> bool {
    match raw {
        Err(e) => res == Err::<u64, Status>(e),
        Ok(bytes) => parser.gives_count(bytes@, res),
    }
}

/// A count source that gets the raw count info from `raw` and parses it with `parser`.
pub struct CntSrcRawParsed<R, P> {
    raw: R,
    parser: P,
}

impl<R, P> CntSrcRawParsed<R, P> {
    /// The raw source.
    pub closed spec fn raw_source(&self) -> R {
        self.raw
    }

    /// The parser.
    pub closed spec fn count_parser(&self) -> P {
        self.parser
    }

    /// The raw source, to ask for the raw count info.
    pub fn raw(&self) -> (r: &R)
        ensures
            *r == self.raw_source(),
    {
        &self.raw
    }
}

impl<R, P: CountRawParser> CntSrcRawParsed<R, P> {
    /// The count for a key, given what the raw source answered for it.
    pub fn count_from_raw(&self, raw: Result<Vec<u8>, Status>) -> (res: Result<u64, Status>)
        ensures
            parsed_count(self.count_parser(), raw, res),
            raw matches Err(e) ==> res matches Err(f) && f == e,
            raw matches Ok(bytes) ==> self.count_parser().gives_count(bytes@, res),
    {
        match raw {
            Err(e) => Err(e),
            Ok(bytes) => self.parser.parse(bytes.as_slice()),
        }
    }
}

/// A parser made of a function gives, for a whole byte sequence, exactly the
/// results that its function gives for a slice holding that whole sequence:
/// nothing of the input is dropped or added before the function sees it.
pub proof fn function_parser_sees_whole_input<F>(p: CntRawParserFn<F>, raw: &[u8], res: Result<u64, Status>) where
    F: Fn(&[u8]) -> Result<u64, Status> + Send + Sync,

    ensures
        call_ensures(p.function(), (raw,), res) ==> p.gives_count(raw@, res),
        p.gives_count(raw@, res) ==> exists|bytes: &[u8]|
            bytes@ == raw@ && #[trigger] call_ensures(p.function(), (bytes,), res),
{
    if call_ensures(p.function(), (raw,), res) {
        assert(raw@ == raw@);
    }
}

/// A raw count is parsed whole: when the raw source answers with `bytes`, the
/// count is a result the parser gives for `bytes@` itself, and when it fails,
/// that failure is the answer. With a parser made of a function `f`, the count
/// is what `f` gives for a slice holding exactly `bytes@`.
pub proof fn raw_count_parsed_whole<F>(
    parser: CntRawParserFn<F>,
    bytes: Vec<u8>,
    e: Status,
    res: Result<u64, Status>,
) where
    F: Fn(&[u8]) -> Result<u64, Status> + Send + Sync,

    ensures
        parsed_count(parser, Ok(bytes), res) <==> parser.gives_count(bytes@, res),
        parsed_count(parser, Ok(bytes), res) ==> exists|s: &[u8]|
            s@ == bytes@ && #[trigger] call_ensures(parser.function(), (s,), res),
        parsed_count(parser, Err(e), res) <==> res == Err::<u64, Status>(e),
{
}

/// Makes a count source from a raw count source and a parser.
pub fn cnt_src_raw_parsed_new<R, P>(raw: R, parser: P) -> (s: CntSrcRawParsed<R, P>) where
    P: CountRawParser,

    ensures
        s.raw_source() == raw,
        s.count_parser() == parser,
{
    CntSrcRawParsed { raw, parser }
}

} // verus!
