//! How a compressed file is decoded and read line by line.

use vstd::prelude::*;

verus! {

/// The largest window, as a power of two, that the zstd decoder is allowed:
/// archives are written with windows larger than the decoder's own limit.
pub const ZSTD_DECODE_WINDOW_LOG_MAX: u32 = 31;

/// The compression formats that can be read.
#[derive(Debug, Clone, Copy, PartialEq, Eq, Structural)]
pub enum Codec {
    Gzip,
    Bzip2,
    Xz,
    Zstd,
}

/// Why a file cannot be read.
#[derive(Debug, Clone)]
pub enum DecodeError {
    /// The file's name has no extension, or one of no known format.
    UnsupportedFormat,
    /// The file could not be opened or read; the text is what the system
    /// said.
    IoError(String),
}

/// The format that an extension stands for.
pub open spec fn codec_of(extension: Seq<char>) -> Option<Codec> {
    if extension == "gz"@ {
        Some(Codec::Gzip)
    } else if extension == "bz2"@ {
        Some(Codec::Bzip2)
    } else if extension == "xz"@ {
        Some(Codec::Xz)
    } else if extension == "zst"@ {
        Some(Codec::Zstd)
    } else {
        None
    }
}

/// The format in which a file is to be decoded, given the extension of its
/// name if it has one.
pub open spec fn codec_for(extension: Option<&str>) -> Option<Codec> {
    match extension {
        Some(extension) => codec_of(extension@),
        None => None,
    }
}

fn same_text(left: &str, right: &str) -> (same: bool)
    ensures
        same == (left@ == right@),
{
    left.to_owned() == right.to_owned()
}

impl Codec {
    /// Picks the format by the extension of a file's name.
    pub fn from_extension(extension: Option<&str>) -> (picked: Result<Codec, DecodeError>)
        ensures
            match picked {
                Ok(codec) => codec_for(extension) == Some(codec),
                Err(error) => error is UnsupportedFormat && codec_for(extension) is None,
            },
    {
        match extension {
            None => Err(DecodeError::UnsupportedFormat),
            Some(extension) => {
                if same_text(extension, "gz") {
                    Ok(Codec::Gzip)
                } else if same_text(extension, "bz2") {
                    Ok(Codec::Bzip2)
                } else if same_text(extension, "xz") {
                    Ok(Codec::Xz)
                } else if same_text(extension, "zst") {
                    Ok(Codec::Zstd)
                } else {
                    Err(DecodeError::UnsupportedFormat)
                }
            },
        }
    }

    /// Whether a file of the format may hold several streams one after the
    /// other, all of which are to be read.
    pub fn multi_stream(self) -> (multi: bool)
        ensures
            multi == (self == Codec::Xz),
    {
        match self {
            Codec::Xz => true,
            _ => false,
        }
    }

    /// The window limit to set on the decoder, where the format has one.
    pub fn window_log_max(self) -> (limit: Option<u32>)
        ensures
            limit == if self == Codec::Zstd {
                Some(ZSTD_DECODE_WINDOW_LOG_MAX)
            } else {
                None::<u32>
            },
    {
        match self {
            Codec::Zstd => Some(ZSTD_DECODE_WINDOW_LOG_MAX),
            _ => None,
        }
    }
}

/// Whether the last read found a line or the end of the stream.
#[derive(Debug, Clone, Copy, PartialEq, Eq, Structural)]
pub enum ReadResult {
    Eof,
    Line,
}

/// The place of a reader in its stream: the line it stands on, unless it
/// has come to the end.
pub struct StreamingReader {
    buffer: String,
    result: ReadResult,
}

/// What a reader holds, as plain values.
pub struct ReaderState {
    /// The text of the last read.
    pub buffer: Seq<char>,
    /// What the last read found.
    pub result: ReadResult,
}

impl ReaderState {
    /// The line on which the reader stands: none once the end is reached.
    pub open spec fn line(self) -> Option<Seq<char>> {
        match self.result {
            ReadResult::Eof => None,
            ReadResult::Line => Some(self.buffer),
        }
    }

    /// The state after a read. A read that gave text leaves the reader on
    /// that text as its line, one that gave none leaves it at the end, and
    /// one that failed leaves it with an empty buffer where it was.
    pub open spec fn advanced(self, read: Result<String, String>) -> ReaderState {
        match read {
            Ok(text) => ReaderState {
                buffer: text@,
                result: if text@.len() == 0 {
                    ReadResult::Eof
                } else {
                    ReadResult::Line
                },
            },
            Err(_) => ReaderState { buffer: Seq::empty(), result: self.result },
        }
    }
}

impl View for StreamingReader {
    type V = ReaderState;

    closed spec fn view(&self) -> ReaderState {
        ReaderState { buffer: self.buffer@, result: self.result }
    }
}

impl StreamingReader {
    /// A reader at the start of its stream: it stands on an empty line
    /// until the first read.
    pub fn new() -> (reader: StreamingReader)
        ensures
            reader@ == (ReaderState { buffer: Seq::empty(), result: ReadResult::Line }),
    {
        StreamingReader { buffer: String::new(), result: ReadResult::Line }
    }

    /// Moves to the next line, given what reading one line from the stream
    /// into an empty buffer gave: the text that was read, which is empty at
    /// the end of the stream, or what the stream said when it failed. A
    /// failure is handed back and the reader stays usable: it is for the
    /// caller to read on or to give the file up.
    pub fn advance(&mut self, read: Result<String, String>) -> (moved: Result<(), DecodeError>)
        ensures
            final(self)@ == old(self)@.advanced(read),
            match read {
                Ok(_) => moved is Ok,
                Err(said) => moved == Err::<(), DecodeError>(DecodeError::IoError(said)),
            },
    {
        match read {
            Ok(text) => {
                self.result = if text.as_str().is_empty() {
                    ReadResult::Eof
                } else {
                    ReadResult::Line
                };
                self.buffer = text;
                Ok(())
            },
            Err(said) => {
                self.buffer = String::new();
                Err(DecodeError::IoError(said))
            },
        }
    }

    /// The line on which the reader stands.
    pub fn get(&self) -> (line: Option<&str>)
        ensures
            crate::filter::text_of(line) == self@.line(),
    {
        match self.result {
            ReadResult::Eof => None,
            ReadResult::Line => Some(self.buffer.as_str()),
        }
    }
}

/// How the lines of a file are to be streamed: the decoder to put on the
/// file, and the reader at the start of the decoded stream.
pub struct LineStream {
    pub codec: Codec,
    pub reader: StreamingReader,
}

/// Prepares the streaming of a file's lines, given the extension of its
/// name: picks the decoder and makes the reader. A file whose name has no
/// extension, or one of no known format, is refused.
pub fn stream_lines(extension: Option<&str>) -> (prepared: Result<LineStream, DecodeError>)
    ensures
        match prepared {
            Ok(stream) => codec_for(extension) == Some(stream.codec) && stream.reader@ == (
            ReaderState { buffer: Seq::empty(), result: ReadResult::Line }),
            Err(error) => error is UnsupportedFormat && codec_for(extension) is None,
        },
{
    match Codec::from_extension(extension) {
        Ok(codec) => Ok(LineStream { codec, reader: StreamingReader::new() }),
        Err(error) => Err(error),
    }
}

} // verus!
