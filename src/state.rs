//! The shared wallpaper state: the base wallpaper's source and the pixel
//! buffer being edited.

use vstd::prelude::*;
use vstd::string::*;
use crate::codec::{
    decode_image, encode_wallpaper, encoding_for, format_of, is_encoder_failure, rgba_decoded,
    PixelBuffer, SaveFormat,
};
use crate::dispatch::DownloadFailure;

verus! {

/// Which of the two base sources is current.
#[derive(Clone, Copy, Debug, PartialEq, Eq, Structural)]
pub enum BaseWallpaperType {
    Path,
    Url,
}

/// The current base source with its value.
pub enum BaseWallpaperSource {
    Path(String),
    Url(String),
}

/// The wallpaper state of the process. Callers that share it between
/// threads hold it behind one lock, so every method runs exclusively.
pub struct WallpaperState {
    base_wallpaper_path: String,
    base_wallpaper_url: String,
    base_wallpaper_type: BaseWallpaperType,
    wallpaper: PixelBuffer,
}

/// The abstract content of a `WallpaperState`.
pub struct StateView {
    pub path: Seq<char>,
    pub url: Seq<char>,
    pub kind: BaseWallpaperType,
    pub wallpaper: (u32, u32, Seq<u8>),
}

/// The width and height of the placeholder buffer made at start-up.
pub const PLACEHOLDER_SIZE: u32 = 100;

impl View for WallpaperState {
    type V = StateView;

    closed spec fn view(&self) -> StateView {
        StateView {
            path: self.base_wallpaper_path@,
            url: self.base_wallpaper_url@,
            kind: self.base_wallpaper_type,
            wallpaper: self.wallpaper@,
        }
    }
}

impl WallpaperState {
    /// The buffer itself, as a value.
    pub closed spec fn buffer(&self) -> PixelBuffer {
        self.wallpaper
    }

    /// The start-up state: a blank 100 × 100 buffer, empty path and URL,
    /// source kind `Path`.
    pub fn new() -> (r: WallpaperState)
        ensures
            r@.path == Seq::<char>::empty(),
            r@.url == Seq::<char>::empty(),
            r@.kind == BaseWallpaperType::Path,
            r@.wallpaper.0 == PLACEHOLDER_SIZE,
            r@.wallpaper.1 == PLACEHOLDER_SIZE,
            r@.wallpaper.2 == Seq::new(40000, |i: int| 0u8),
    {
        WallpaperState {
            base_wallpaper_path: String::new(),
            base_wallpaper_url: String::new(),
            base_wallpaper_type: BaseWallpaperType::Path,
            wallpaper: PixelBuffer::blank(PLACEHOLDER_SIZE, PLACEHOLDER_SIZE),
        }
    }

    /// Makes `path` the current base source (the URL is kept but no longer
    /// current) and loads the image that was read from it: on success the
    /// buffer becomes the decoded image; where reading or decoding failed
    /// the error is returned and the buffer is left as it was.
    pub fn set_base_wallpaper_path(&mut self, path: &str, read: Result<Vec<u8>, String>) -> (r:
        Result<(), String>)
        ensures
            final(self)@.path == path@,
            final(self)@.kind == BaseWallpaperType::Path,
            final(self)@.url == old(self)@.url,
            read matches Err(e) ==> r == Err::<(), String>(e),
            read matches Ok(bytes) ==> (r is Ok <==> rgba_decoded(bytes@) is Some),
            read matches Ok(bytes) ==> (r is Ok ==> Some(final(self)@.wallpaper) == rgba_decoded(
                bytes@,
            )),
            r is Err ==> final(self)@.wallpaper == old(self)@.wallpaper,
    {
        self.base_wallpaper_path = String::from_str(path);
        self.base_wallpaper_type = BaseWallpaperType::Path;
        match read {
            Err(e) => Err(e),
            Ok(bytes) => self.load_wallpaper(bytes.as_slice()),
        }
    }

    /// Makes `url` the current base source (the path is kept but no longer
    /// current) and loads the image that was fetched from it: on success the
    /// buffer becomes the decoded image; where the download or decoding
    /// failed the error is returned and the buffer is left as it was.
    pub fn set_base_wallpaper_url(&mut self, url: &str, fetched: Result<Vec<u8>, DownloadFailure>) -> (r:
        Result<(), String>)
        ensures
            final(self)@.url == url@,
            final(self)@.kind == BaseWallpaperType::Url,
            final(self)@.path == old(self)@.path,
            fetched matches Err(f) ==> (r matches Err(e) && e@ == f.message_spec()),
            fetched matches Ok(bytes) ==> (r is Ok <==> rgba_decoded(bytes@) is Some),
            fetched matches Ok(bytes) ==> (r is Ok ==> Some(final(self)@.wallpaper) == rgba_decoded(
                bytes@,
            )),
            r is Err ==> final(self)@.wallpaper == old(self)@.wallpaper,
    {
        self.base_wallpaper_url = String::from_str(url);
        self.base_wallpaper_type = BaseWallpaperType::Url;
        match fetched {
            Err(f) => Err(f.message()),
            Ok(bytes) => self.load_wallpaper(bytes.as_slice()),
        }
    }

    pub fn base_wallpaper_path(&self) -> (r: &str)
        ensures
            r@ == self@.path,
    {
        self.base_wallpaper_path.as_str()
    }

    pub fn base_wallpaper_url(&self) -> (r: &str)
        ensures
            r@ == self@.url,
    {
        self.base_wallpaper_url.as_str()
    }

    pub fn base_wallpaper_type(&self) -> (r: BaseWallpaperType)
        ensures
            r == self@.kind,
    {
        self.base_wallpaper_type
    }

    /// The current source: the kind together with its value.
    pub fn base_source(&self) -> (r: BaseWallpaperSource)
        ensures
            match r {
                BaseWallpaperSource::Path(p) => self@.kind == BaseWallpaperType::Path && p@
                    == self@.path,
                BaseWallpaperSource::Url(u) => self@.kind == BaseWallpaperType::Url && u@
                    == self@.url,
            },
    {
        match self.base_wallpaper_type {
            BaseWallpaperType::Path => BaseWallpaperSource::Path(
                String::from_str(self.base_wallpaper_path.as_str()),
            ),
            BaseWallpaperType::Url => BaseWallpaperSource::Url(
                String::from_str(self.base_wallpaper_url.as_str()),
            ),
        }
    }

    /// Swaps in a whole new buffer.
    pub fn replace(&mut self, new_buffer: PixelBuffer)
        ensures
            final(self)@.wallpaper == new_buffer@,
            final(self)@.path == old(self)@.path,
            final(self)@.url == old(self)@.url,
            final(self)@.kind == old(self)@.kind,
    {
        self.wallpaper = new_buffer;
    }

    /// Decodes `bytes` and, on success, makes the result the buffer; on
    /// failure the state is left as it was.
    pub fn load_wallpaper(&mut self, bytes: &[u8]) -> (r: Result<(), String>)
        ensures
            final(self)@.path == old(self)@.path,
            final(self)@.url == old(self)@.url,
            final(self)@.kind == old(self)@.kind,
            r is Ok <==> rgba_decoded(bytes@) is Some,
            r is Ok ==> Some(final(self)@.wallpaper) == rgba_decoded(bytes@),
            r is Err ==> final(self)@.wallpaper == old(self)@.wallpaper,
    {
        match decode_image(bytes) {
            Ok(b) => {
                self.replace(b);
                Ok(())
            },
            Err(e) => Err(e),
        }
    }

    /// Runs one edit on the buffer with exclusive access: the buffer becomes
    /// what `edit` returns for the previous one.
    pub fn with_mutable<F: FnOnce(&PixelBuffer) -> PixelBuffer>(&mut self, edit: F)
        requires
            edit.requires((&old(self).buffer(),)),
        ensures
            edit.ensures((&old(self).buffer(),), final(self).buffer()),
            final(self)@.path == old(self)@.path,
            final(self)@.url == old(self)@.url,
            final(self)@.kind == old(self)@.kind,
    {
        let edited = edit(&self.wallpaper);
        self.wallpaper = edited;
    }

    /// Encodes an edited buffer for the base path, in the format the path's
    /// extension selects; the state is not changed.
    pub fn encode_edit(&self, edited: &PixelBuffer) -> (r: Result<Vec<u8>, String>)
        ensures
            format_of(self@.path) is None ==> (r matches Err(e) && e@
                == "Unsupported file extension: "@ + self@.path),
            format_of(self@.path) matches Some(f) ==> (r is Ok <==> encoding_for(edited@, f) is Some),
            format_of(self@.path) == Some(SaveFormat::Png) ==> (r is Ok <==> (edited@.0 > 0
                && edited@.1 > 0)),
            format_of(self@.path) == Some(SaveFormat::Jpeg) ==> (r is Ok <==> (1 <= edited@.0
                <= 65535 && 1 <= edited@.1 <= 65535)),
            r matches Ok(b) ==> (format_of(self@.path) matches Some(f) && encoding_for(edited@, f)
                == Some(b@)),
            format_of(self@.path) is Some ==> (r matches Err(e) ==> is_encoder_failure(e@)),
    {
        encode_wallpaper(edited, self.base_wallpaper_path.as_str())
    }

    /// Commits an edited buffer once its file has been written: on success
    /// the buffer becomes `edited`; where the write failed the error is
    /// returned and the state is left as it was.
    pub fn commit_edit(&mut self, edited: PixelBuffer, written: Result<(), String>) -> (r: Result<
        (),
        String,
    >)
        ensures
            written is Ok ==> (r is Ok && final(self)@.wallpaper == edited@),
            written matches Err(e) ==> (r matches Err(m) && m@ == "Failed to create file: "@ + e@
                && final(self)@.wallpaper == old(self)@.wallpaper),
            final(self)@.path == old(self)@.path,
            final(self)@.url == old(self)@.url,
            final(self)@.kind == old(self)@.kind,
    {
        match written {
            Ok(()) => {
                self.wallpaper = edited;
                Ok(())
            },
            Err(e) => {
                let mut m = String::from_str("Failed to create file: ");
                m.append(e.as_str());
                Err(m)
            },
        }
    }

    /// A copy of the buffer, for encoding.
    pub fn read_snapshot(&self) -> (r: PixelBuffer)
        ensures
            r@ == self@.wallpaper,
    {
        self.wallpaper.clone_buffer()
    }
}

} // verus!
