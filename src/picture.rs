use vstd::prelude::*;
use vstd::string::{StrSliceExecFns, StringExecFns};
use crate::media_source::{MediaSourceImageCodec, MediaSourcePicture};

verus! {

/// `s` without its trailing slashes.
pub open spec fn trim_trailing_slashes(s: Seq<char>) -> Seq<char>
    decreases s.len(),
{
    if s.len() > 0 && s.last() == '/' {
        trim_trailing_slashes(s.drop_last())
    } else {
        s
    }
}

/// The cache directory of a picture: `<cache_dir>/img/<h0>/<h1>/`, where
/// `h0` and `h1` are the first two characters of the hash; empty for an
/// empty hash.
pub open spec fn picture_dir(cache_dir: Seq<char>, hash: Seq<char>) -> Seq<char> {
    if hash.len() == 0 {
        Seq::empty()
    } else {
        trim_trailing_slashes(cache_dir) + "/img/"@ + seq![hash[0], '/', hash[1], '/']
    }
}

/// The file of a picture: `<dir><hash>.<suffix><ext>`; empty for an empty
/// hash.
pub open spec fn picture_file(cache_dir: Seq<char>, hash: Seq<char>, suffix: Seq<char>, ext: Seq<char>) -> Seq<char> {
    if hash.len() == 0 {
        Seq::empty()
    } else {
        picture_dir(cache_dir, hash) + hash + seq!['.'] + suffix + ext
    }
}

/// The file extension used for a picture codec.
pub open spec fn codec_ext(codec: MediaSourceImageCodec) -> Seq<char> {
    match codec {
        MediaSourceImageCodec::Png => "png"@,
        MediaSourceImageCodec::Jpeg => "jpg"@,
        MediaSourceImageCodec::Tiff => "tif"@,
        MediaSourceImageCodec::Bmp => "jpg"@,
        MediaSourceImageCodec::Gif => "gif"@,
        _ => "dat"@,
    }
}

fn append_trimmed(out: &mut String, s: &str)
    ensures
        final(out)@ == old(out)@ + trim_trailing_slashes(s@),
{
    let mut end = s.unicode_len();
    assert(s@.subrange(0, end as int) =~= s@);
    while end > 0 && s.get_char(end - 1) == '/'
        invariant
            end <= s@.len(),
            trim_trailing_slashes(s@) == trim_trailing_slashes(s@.subrange(0, end as int)),
        decreases end,
    {
        proof {
            assert(s@.subrange(0, end as int).drop_last() =~= s@.subrange(0, end - 1));
        }
        end = end - 1;
    }
    assert(trim_trailing_slashes(s@.subrange(0, end as int)) == s@.subrange(0, end as int));
    out.append(s.substring_char(0, end));
}

impl MediaSourcePicture {
    pub open spec fn wf(&self) -> bool {
        self.hash@.len() != 1
    }

    /// The directory that holds the picture and its thumbnail.
    pub fn path(&self) -> (r: String)
        requires
            self.wf(),
        ensures
            r@ == picture_dir(self.cache_dir@, self.hash@),
    {
        let hash = self.hash.as_str();
        if hash.unicode_len() == 0 {
            return String::new();
        }
        let mut out = String::new();
        append_trimmed(&mut out, self.cache_dir.as_str());
        proof {
            reveal_strlit("/img/");
            reveal_strlit("/");
        }
        out.append("/img/");
        out.append(hash.substring_char(0, 1));
        out.append("/");
        out.append(hash.substring_char(1, 2));
        out.append("/");
        proof {
            assert(out@ =~= picture_dir(self.cache_dir@, self.hash@));
        }
        out
    }

    /// The full path of the picture itself.
    pub fn pic_full_path(&self, ext: String) -> (r: String)
        requires
            self.wf(),
        ensures
            r@ == picture_file(self.cache_dir@, self.hash@, Seq::empty(), ext@),
    {
        proof {
            reveal_strlit("");
        }
        self.internal_file(<String as StringExecFns>::from_str(""), ext)
    }

    /// The full path of the picture's thumbnail.
    pub fn tb_full_path(&self, ext: String) -> (r: String)
        requires
            self.wf(),
        ensures
            r@ == picture_file(self.cache_dir@, self.hash@, "tb."@, ext@),
    {
        self.internal_file(<String as StringExecFns>::from_str("tb."), ext)
    }

    fn internal_file(&self, suffix: String, pic_ext: String) -> (r: String)
        requires
            self.wf(),
        ensures
            r@ == picture_file(self.cache_dir@, self.hash@, suffix@, pic_ext@),
    {
        if self.hash.as_str().unicode_len() == 0 {
            return String::new();
        }
        let mut out = self.path();
        proof {
            reveal_strlit(".");
        }
        out.append(self.hash.as_str());
        out.append(".");
        out.append(suffix.as_str());
        out.append(pic_ext.as_str());
        proof {
            assert(out@ =~= picture_file(self.cache_dir@, self.hash@, suffix@, pic_ext@));
        }
        out
    }

    /// The file extension for a codec.
    pub fn medias_source_image_codec_to_ext(&self, codec: &MediaSourceImageCodec) -> (r: String)
        ensures
            r@ == codec_ext(*codec),
    {
        match codec {
            MediaSourceImageCodec::Png => <String as StringExecFns>::from_str("png"),
            MediaSourceImageCodec::Jpeg => <String as StringExecFns>::from_str("jpg"),
            MediaSourceImageCodec::Tiff => <String as StringExecFns>::from_str("tif"),
            MediaSourceImageCodec::Bmp => <String as StringExecFns>::from_str("jpg"),
            MediaSourceImageCodec::Gif => <String as StringExecFns>::from_str("gif"),
            _ => <String as StringExecFns>::from_str("dat"),
        }
    }
}

} // verus!
