//! Track descriptors: the resolved metadata and audio format of one track.
//!
//! A descriptor is assembled once from what the resolver returned and is
//! never mutated afterwards. The resolver itself (network) lives outside the
//! library; it hands over plain values and `Track::new` does the verified
//! part: picking the opus format, defaulting the author, parsing the
//! duration.

use vstd::prelude::*;
use vstd::string::StringSliceAdditionalSpecFns;
use vstd::utf8::encode_utf8;

verus! {

/// A byte is an ASCII decimal digit.
pub open spec fn is_digit(b: u8) -> bool {
    48 <= b <= 57
}

/// Every byte of the sequence is an ASCII decimal digit.
pub open spec fn all_digits(s: Seq<u8>) -> bool {
    forall|i: int| 0 <= i < s.len() ==> is_digit(#[trigger] s[i])
}

/// The value of a sequence of ASCII decimal digits, most significant first.
pub open spec fn dec_value(s: Seq<u8>) -> int
    decreases s.len(),
{
    if s.len() == 0 {
        0
    } else {
        dec_value(s.drop_last()) * 10 + (s.last() - 48)
    }
}

/// A sequence of digits has a non-negative value.
proof fn lemma_dec_value_nonneg(s: Seq<u8>)
    requires
        all_digits(s),
    ensures
        dec_value(s) >= 0,
    decreases s.len(),
{
    if s.len() > 0 {
        lemma_dec_value_nonneg(s.drop_last());
    }
}

/// Extending a digit string only grows its value.
proof fn lemma_dec_value_take_mono(s: Seq<u8>, i: int, j: int)
    requires
        all_digits(s),
        0 <= i <= j <= s.len(),
    ensures
        dec_value(s.take(j)) >= dec_value(s.take(i)),
    decreases j - i,
{
    if i < j {
        lemma_dec_value_take_mono(s, i, j - 1);
        assert(s.take(j).drop_last() =~= s.take(j - 1));
        assert(forall|k: int| 0 <= k < j ==> is_digit(#[trigger] s.take(j)[k]));
        lemma_dec_value_nonneg(s.take(j - 1));
    }
}

/// Parses a non-empty, all-digit decimal string; `None` on anything else
/// (empty input, a non-digit byte, or a value that does not fit in `u64`).
pub fn parse_u64(s: &str) -> (r: Option<u64>)
    ensures
        match r {
            Some(n) => {
                &&& s.spec_bytes().len() > 0
                &&& all_digits(s.spec_bytes())
                &&& n == dec_value(s.spec_bytes())
            },
            None => s.spec_bytes().len() == 0 || !all_digits(s.spec_bytes()) || dec_value(
                s.spec_bytes(),
            ) > u64::MAX,
        },
{
    let bytes = s.as_bytes();
    let n = bytes.len();
    if n == 0 {
        return None;
    }
    let mut acc: u64 = 0;
    let mut i: usize = 0;
    while i < n
        invariant
            bytes@ == s.spec_bytes(),
            n == bytes@.len(),
            0 <= i <= n,
            forall|k: int| 0 <= k < i ==> is_digit(#[trigger] bytes@[k]),
            acc == dec_value(bytes@.take(i as int)),
        decreases n - i,
    {
        let b = bytes[i];
        if b < 48 || b > 57 {
            return None;
        }
        let d = (b - 48) as u64;
        proof {
            assert(bytes@.take(i + 1).drop_last() =~= bytes@.take(i as int));
            assert(bytes@.take(i + 1).last() == bytes@[i as int]);
        }
        let scaled = match acc.checked_mul(10) {
            Some(x) => x,
            None => {
                proof {
                    lemma_overflow_means_too_big(bytes@, i as int);
                }
                return None;
            },
        };
        acc = match scaled.checked_add(d) {
            Some(y) => y,
            None => {
                proof {
                    lemma_overflow_means_too_big(bytes@, i as int);
                }
                return None;
            },
        };
        i += 1;
    }
    proof {
        assert(bytes@.take(n as int) =~= bytes@);
    }
    Some(acc)
}

/// If one more digit pushes the running value past `u64::MAX`, the whole
/// string's value is past it too.
proof fn lemma_overflow_means_too_big(s: Seq<u8>, i: int)
    requires
        0 <= i < s.len(),
        forall|k: int| 0 <= k <= i ==> is_digit(#[trigger] s[k]),
        dec_value(s.take(i)) * 10 + (s[i] - 48) > u64::MAX,
    ensures
        !all_digits(s) || dec_value(s) > u64::MAX,
{
    if all_digits(s) {
        assert(s.take(i + 1).drop_last() =~= s.take(i));
        assert(s.take(i + 1).last() == s[i]);
        assert(dec_value(s.take(i + 1)) > u64::MAX);
        lemma_dec_value_take_mono(s, i + 1, s.len() as int);
        assert(s.take(s.len() as int) =~= s);
    }
}

/// Resolved audio format of one track: where the bytes live and what the
/// decoder should expect.
pub struct AudioFormat {
    /// URL of the remote audio resource.
    pub url: String,
    /// Codec name reported by the resolver, if any.
    pub codec: Option<String>,
    /// Channel count reported by the resolver, if any.
    pub audio_channels: Option<u8>,
    /// Sample rate reported by the resolver, as a decimal string, if any.
    pub audio_sample_rate: Option<String>,
}

/// The sample rate a format calls for: its decimal sample-rate string if it
/// parses into `u32`, and 48000 otherwise.
pub open spec fn sample_rate_of(sr: Option<String>) -> u32 {
    match sr {
        Some(s) => {
            let b = encode_utf8(s@);
            if b.len() > 0 && all_digits(b) && dec_value(b) <= u32::MAX {
                dec_value(b) as u32
            } else {
                48000
            }
        },
        None => 48000,
    }
}

impl AudioFormat {
    /// Channel count for the decoder: what the resolver reported, or 2.
    pub fn channel_count(&self) -> (c: u16)
        ensures
            c == match self.audio_channels {
                Some(n) => n as u16,
                None => 2u16,
            },
    {
        match self.audio_channels {
            Some(n) => n as u16,
            None => 2,
        }
    }

    /// Sample rate for the decoder: the reported rate if it parses, or 48000.
    pub fn sample_rate(&self) -> (r: u32)
        ensures
            r == sample_rate_of(self.audio_sample_rate),
    {
        match &self.audio_sample_rate {
            Some(s) => {
                match parse_u64(s.as_str()) {
                    Some(n) => if n <= u32::MAX as u64 {
                        n as u32
                    } else {
                        48000
                    },
                    None => 48000,
                }
            },
            None => 48000,
        }
    }
}

impl Clone for AudioFormat {
    fn clone(&self) -> (res: Self)
        ensures
            res == *self,
    {
        AudioFormat {
            url: self.url.clone(),
            codec: match &self.codec {
                Some(c) => Some(c.clone()),
                None => None,
            },
            audio_channels: self.audio_channels,
            audio_sample_rate: match &self.audio_sample_rate {
                Some(s) => Some(s.clone()),
                None => None,
            },
        }
    }
}

/// A format carries opus audio.
pub open spec fn is_opus(f: AudioFormat) -> bool {
    f.codec matches Some(c) && c@ == "opus"@
}

/// The first opus format of the list, if any.
pub open spec fn find_opus(s: Seq<AudioFormat>) -> Option<AudioFormat>
    decreases s.len(),
{
    if s.len() == 0 {
        None
    } else if is_opus(s[0]) {
        Some(s[0])
    } else {
        find_opus(s.drop_first())
    }
}

/// Dropping a non-opus prefix element keeps the search result.
proof fn lemma_find_opus_skip(s: Seq<AudioFormat>, i: int)
    requires
        0 <= i < s.len(),
        !is_opus(s[i]),
    ensures
        find_opus(s.skip(i)) == find_opus(s.skip(i + 1)),
{
    assert(s.skip(i)[0] == s[i]);
    assert(s.skip(i).drop_first() =~= s.skip(i + 1));
}

/// One track of the queue: resolved metadata plus its audio format.
pub struct Track {
    /// The playable audio format picked at resolution time.
    pub format: AudioFormat,
    /// Opaque identifier the resolver understands (used for re-resolution).
    pub id: String,
    /// Track title.
    pub title: String,
    /// Track author, `"???"` when the resolver reported none.
    pub author: String,
    /// Thumbnail URLs.
    pub thumbnails: Vec<String>,
    /// Duration in whole seconds, 0 when unparseable.
    pub duration: u64,
}

impl Track {
    /// Fieldwise agreement; the thumbnail list is compared by its element
    /// sequence. This is exactly what a clone preserves.
    pub open spec fn like(&self, other: &Track) -> bool {
        &&& self.format == other.format
        &&& self.id == other.id
        &&& self.title == other.title
        &&& self.author == other.author
        &&& self.thumbnails@ == other.thumbnails@
        &&& self.duration == other.duration
    }

    /// Assembles a descriptor from what the resolver returned: the first
    /// opus format is picked (`None` when there is none), a missing author
    /// becomes `"???"`, and the duration string is parsed (0 on failure).
    pub fn new(
        id: String,
        title: String,
        author: Option<String>,
        thumbnails: Vec<String>,
        length_seconds: &str,
        formats: &Vec<AudioFormat>,
    ) -> (r: Option<Track>)
        ensures
            match r {
                Some(t) => {
                    &&& find_opus(formats@) == Some(t.format)
                    &&& t.id == id
                    &&& t.title == title
                    &&& match author {
                        Some(a) => t.author == a,
                        None => t.author@ == "???"@,
                    }
                    &&& t.thumbnails == thumbnails
                    &&& t.duration == {
                        let b = length_seconds.spec_bytes();
                        if b.len() > 0 && all_digits(b) && dec_value(b) <= u64::MAX {
                            dec_value(b) as u64
                        } else {
                            0u64
                        }
                    }
                },
                None => find_opus(formats@) is None,
            },
    {
        let opus_name: String = "opus".to_owned();
        let n = formats.len();
        let mut i: usize = 0;
        let mut picked: Option<AudioFormat> = None;
        proof {
            assert(formats@.skip(0) =~= formats@);
        }
        while i < n && picked.is_none()
            invariant
                0 <= i <= n,
                n == formats@.len(),
                opus_name@ == "opus"@,
                match picked {
                    None => find_opus(formats@) == find_opus(formats@.skip(i as int)),
                    Some(f) => find_opus(formats@) == Some(f),
                },
            decreases n - i,
        {
            let found = match &formats[i].codec {
                Some(c) => *c == opus_name,
                None => false,
            };
            if found {
                proof {
                    assert(formats@.skip(i as int)[0] == formats@[i as int]);
                }
                picked = Some(formats[i].clone());
            } else {
                proof {
                    lemma_find_opus_skip(formats@, i as int);
                }
            }
            i += 1;
        }
        proof {
            if picked is None {
                assert(formats@.skip(n as int) =~= Seq::<AudioFormat>::empty());
            }
        }
        match picked {
            None => None,
            Some(format) => {
                let duration = match parse_u64(length_seconds) {
                    Some(d) => d,
                    None => 0,
                };
                Some(
                    Track {
                        format,
                        id,
                        title,
                        author: match author {
                            Some(a) => a,
                            None => "???".to_owned(),
                        },
                        thumbnails,
                        duration,
                    },
                )
            },
        }
    }
}

impl Clone for Track {
    fn clone(&self) -> (res: Self)
        ensures
            self.like(&res),
            res.like(self),
    {
        let thumbnails = self.thumbnails.clone();
        proof {
            assert forall|i: int| 0 <= i < self.thumbnails@.len() implies self.thumbnails@[i]
                == thumbnails@[i] by {
                assert(cloned::<String>(self.thumbnails@[i], thumbnails@[i]));
            }
            assert(self.thumbnails@ =~= thumbnails@);
        }
        Track {
            format: self.format.clone(),
            id: self.id.clone(),
            title: self.title.clone(),
            author: self.author.clone(),
            thumbnails,
            duration: self.duration,
        }
    }
}

} // verus!
