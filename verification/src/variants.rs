//! The owning variants and the capability contract they share.
//!
//! Three kinds of value own an image handle: one decoded from a path
//! together with the configuration handle that produced it, one
//! constituted from a raw pixel buffer that it retains for its whole life,
//! and one retrieved from the native in-process registry (falling back to
//! a path load on a miss). All of them speak the same transformation
//! vocabulary, the [`ImageLike`] contract, so code written against the
//! contract works with any owner.

use vstd::prelude::*;
use vstd::utf8::{decode_utf8, encode_utf8, valid_utf8};
use crate::err::{Error, ExceptionInfo, spec_native_error};
use crate::image::{
    BlobOutcome, Image, ImageInfo, ReshapeOutcome, TransformOutcome, WriteOutcome,
};
use crate::scaling::spec_smart_target;
use crate::text::{copy_bytes, storable, terminated_prefix, zero_buffer, MAX_TEXT_EXTENT};

verus! {

/// What a successful native read handed back: the new handle and the
/// dimensions and format field of the struct it points at.
pub struct ReadEvent {
    pub handle: usize,
    pub columns: u64,
    pub rows: u64,
    pub magick: Vec<u8>,
}

impl ReadEvent {
    /// The conditions a genuine successful native read satisfies: a
    /// non-null handle, positive dimensions, and a format field of the
    /// native capacity.
    pub open spec fn wf(&self) -> bool {
        &&& self.handle != 0
        &&& self.columns >= 1
        &&& self.rows >= 1
        &&& self.magick@.len() == MAX_TEXT_EXTENT
    }
}

/// The outcome of a native read-image call.
pub enum ReadOutcome {
    Loaded(ReadEvent),
    Failed(ExceptionInfo),
}

/// The answer of the native registry to a lookup: a stored image, or a
/// miss together with the outcome of the fallback read from the path.
pub enum CacheLookup {
    Hit(ReadEvent),
    Miss(ReadOutcome),
}

/// The outcome of a native constitute-from-buffer call.
pub enum ConstituteOutcome {
    Constituted(usize),
    Failed(ExceptionInfo),
}

/// An image handle paired with the configuration handle that produced it,
/// needed by the operations that must run under a matching configuration.
pub struct ImageWithInfo {
    pub image: Image,
    pub info: ImageInfo,
}

/// An image handle paired with the raw pixel buffer it was constituted
/// from. The buffer is retained for the variant's whole life: the native
/// struct reads from that memory, so the buffer must outlive the handle.
pub struct ImageWithContainer<T: StorageType> {
    pub image: Image,
    pub container: Vec<T>,
}

/// A native storage-type tag: how one pixel sample is laid out in memory.
pub enum StorageKind {
    CharPixel,
}

/// Sample types the wrapper has declared a native storage tag for. Only a
/// declared type can constitute an image from a buffer — the tag is
/// capability-bounded, never arbitrary.
pub trait StorageType {
    spec fn spec_storage_kind() -> StorageKind;

    /// The native storage tag declared for this sample type.
    fn storage_kind() -> (r: StorageKind)
        ensures
            r == Self::spec_storage_kind(),
    ;
}

impl StorageType for u8 {
    open spec fn spec_storage_kind() -> StorageKind {
        StorageKind::CharPixel
    }

    fn storage_kind() -> (r: StorageKind) {
        StorageKind::CharPixel
    }
}

fn image_from_read(info: &ImageInfo, event: ReadEvent) -> (r: Image)
    requires
        info.wf(),
        event.wf(),
    ensures
        r.wf(),
        r.spec_handle() == event.handle,
        r.spec_columns() == event.columns,
        r.spec_rows() == event.rows,
        r.spec_filename_buf() == info.spec_filename_buf(),
        r.spec_magick_buf() == event.magick@,
{
    let ReadEvent { handle, columns, rows, magick } = event;
    let filename = copy_bytes(info.filename_buffer());
    Image::from_parts(handle, columns, rows, filename, magick)
}

impl Image {
    /// Wrap the outcome of a native read of the path stored in `info`: a
    /// loaded handle becomes an image paired with its configuration, whose
    /// name is the path the configuration holds; a failure becomes the
    /// captured exception as a typed error.
    pub fn from_path(info: ImageInfo, outcome: ReadOutcome) -> (r: Result<ImageWithInfo, Error>)
        requires
            info.wf(),
            outcome matches ReadOutcome::Loaded(event) ==> event.wf(),
        ensures
            match outcome {
                ReadOutcome::Loaded(event) => match r {
                    Ok(v) => {
                        &&& v.image.wf()
                        &&& v.image.spec_handle() == event.handle
                        &&& v.image.spec_columns() == event.columns
                        &&& v.image.spec_rows() == event.rows
                        &&& v.image.spec_name() == info.spec_filename()
                        &&& v.image.spec_format() == terminated_prefix(event.magick@)
                        &&& v.info == info
                    },
                    Err(_) => false,
                },
                ReadOutcome::Failed(exception) => r == Err::<ImageWithInfo, Error>(
                    spec_native_error(exception),
                ),
            },
    {
        match outcome {
            ReadOutcome::Loaded(event) => {
                let image = image_from_read(&info, event);
                Ok(ImageWithInfo { image, info })
            },
            ReadOutcome::Failed(exception) => Err(crate::err::native_error(exception)),
        }
    }

    /// Wrap the outcome of a native constitute call on a raw pixel buffer
    /// of `width` by `height` samples laid out as `map` declares, one
    /// sample of `T` per channel. The buffer must hold at least one sample
    /// per channel of every pixel — the native call reads exactly that
    /// much memory — and is retained by the constituted variant for its
    /// whole life. A fresh constituted image carries an empty name and an
    /// empty format tag.
    pub fn constitute<T: StorageType>(
        width: u32,
        height: u32,
        map: &str,
        buffer: Vec<T>,
        outcome: ConstituteOutcome,
    ) -> (r: Result<ImageWithContainer<T>, Error>)
        requires
            buffer@.len() >= width as int * height as int * encode_utf8(map@).len(),
            outcome matches ConstituteOutcome::Constituted(handle) ==> handle != 0 && width >= 1
                && height >= 1,
        ensures
            match outcome {
                ConstituteOutcome::Constituted(handle) => match r {
                    Ok(v) => {
                        &&& v.image.wf()
                        &&& v.image.spec_handle() == handle
                        &&& v.image.spec_columns() == width as u64
                        &&& v.image.spec_rows() == height as u64
                        &&& v.image.spec_name() == Seq::<u8>::empty()
                        &&& v.image.spec_format() == Seq::<u8>::empty()
                        &&& v.container == buffer
                    },
                    Err(_) => false,
                },
                ConstituteOutcome::Failed(exception) => r == Err::<ImageWithContainer<T>, Error>(
                    spec_native_error(exception),
                ),
            },
    {
        match outcome {
            ConstituteOutcome::Constituted(handle) => {
                let image = Image::from_parts(
                    handle,
                    width as u64,
                    height as u64,
                    zero_buffer(),
                    zero_buffer(),
                );
                Ok(ImageWithContainer { image, container: buffer })
            },
            ConstituteOutcome::Failed(exception) => Err(crate::err::native_error(exception)),
        }
    }

    /// Wrap the answer of a registry lookup keyed by the path stored in
    /// `info`: a hit wraps the stored image, a miss hands over the outcome
    /// of the fallback read of the same path, handled exactly as a plain
    /// path load.
    pub fn from_cache_or_path(info: ImageInfo, lookup: CacheLookup) -> (r: Result<
        ImageWithInfo,
        Error,
    >)
        requires
            info.wf(),
            lookup matches CacheLookup::Hit(event) ==> event.wf(),
            lookup matches CacheLookup::Miss(outcome) ==> (outcome
                matches ReadOutcome::Loaded(event) ==> event.wf()),
        ensures
            match lookup {
                CacheLookup::Hit(event) => match r {
                    Ok(v) => {
                        &&& v.image.wf()
                        &&& v.image.spec_handle() == event.handle
                        &&& v.image.spec_columns() == event.columns
                        &&& v.image.spec_rows() == event.rows
                        &&& v.image.spec_name() == info.spec_filename()
                        &&& v.image.spec_format() == terminated_prefix(event.magick@)
                        &&& v.info == info
                    },
                    Err(_) => false,
                },
                CacheLookup::Miss(outcome) => match outcome {
                    ReadOutcome::Loaded(event) => match r {
                        Ok(v) => {
                            &&& v.image.wf()
                            &&& v.image.spec_handle() == event.handle
                            &&& v.image.spec_columns() == event.columns
                            &&& v.image.spec_rows() == event.rows
                            &&& v.image.spec_name() == info.spec_filename()
                            &&& v.image.spec_format() == terminated_prefix(event.magick@)
                            &&& v.info == info
                        },
                        Err(_) => false,
                    },
                    ReadOutcome::Failed(exception) => r == Err::<ImageWithInfo, Error>(
                        spec_native_error(exception),
                    ),
                },
            },
    {
        match lookup {
            CacheLookup::Hit(event) => {
                let image = image_from_read(&info, event);
                Ok(ImageWithInfo { image, info })
            },
            CacheLookup::Miss(outcome) => Image::from_path(info, outcome),
        }
    }
}

/// The transformation vocabulary every owning variant speaks. Each method
/// that consumes a native outcome applies it to the owned image exactly as
/// the corresponding [`Image`] method does: the handle is swapped on
/// success, and on failure the prior state is untouched and the captured
/// exception comes back typed.
pub trait ImageLike {
    /// The owned image this variant operates on.
    spec fn img(&self) -> Image;

    /// The variant's validity: its image (and configuration, where it owns
    /// one) is well-formed.
    spec fn inv(&self) -> bool;

    /// The configuration handle the variant owns, if it owns one.
    spec fn spec_info(&self) -> Option<ImageInfo>;

    fn image_ref(&self) -> (r: &Image)
        requires
            self.inv(),
        ensures
            *r == self.img(),
            r.wf(),
    ;

    /// The matching configuration handle on variants that own one;
    /// operations that need one and get `None` construct a fresh default
    /// configuration scoped to the single call.
    fn opt_info_ref(&self) -> (r: Option<&ImageInfo>)
        requires
            self.inv(),
        ensures
            match r {
                Some(i) => self.spec_info() == Some(*i) && i.wf(),
                None => self.spec_info() is None,
            },
    ;

    fn name(&self) -> (r: Result<String, Error>)
        requires
            self.inv(),
        ensures
            r is Ok <==> valid_utf8(self.img().spec_name()),
            r matches Ok(s) ==> s@ == decode_utf8(self.img().spec_name()),
            r matches Err(e) ==> e == Error::EncodingFailure,
    ;

    fn mime_type(&self) -> (r: Result<String, Error>)
        requires
            self.inv(),
        ensures
            r is Ok <==> valid_utf8(self.img().spec_format()),
            r matches Ok(s) ==> s@ == decode_utf8(self.img().spec_format()),
            r matches Err(e) ==> e == Error::EncodingFailure,
    ;

    fn dimensions(&self) -> (r: (u64, u64))
        requires
            self.inv(),
        ensures
            r.0 == self.img().spec_columns(),
            r.1 == self.img().spec_rows(),
            r.0 >= 1,
            r.1 >= 1,
    ;

    fn set_format(&mut self, fmt: &str) -> (r: Result<(), Error>)
        requires
            old(self).inv(),
        ensures
            final(self).inv(),
            final(self).spec_info() == old(self).spec_info(),
            final(self).img().spec_handle() == old(self).img().spec_handle(),
            final(self).img().spec_columns() == old(self).img().spec_columns(),
            final(self).img().spec_rows() == old(self).img().spec_rows(),
            final(self).img().spec_filename_buf() == old(self).img().spec_filename_buf(),
            match r {
                Ok(()) => storable(encode_utf8(fmt@)) && final(self).img().spec_format()
                    == encode_utf8(fmt@),
                Err(e) => e == Error::EncodingFailure && !storable(encode_utf8(fmt@))
                    && final(self).img().spec_magick_buf() == old(self).img().spec_magick_buf(),
            },
    ;

    fn scale(&mut self, width: u64, height: u64, outcome: TransformOutcome) -> (r: Result<
        (),
        Error,
    >)
        requires
            old(self).inv(),
            outcome matches TransformOutcome::Replaced(handle) ==> handle != 0 && width >= 1
                && height >= 1,
        ensures
            final(self).inv(),
            final(self).spec_info() == old(self).spec_info(),
            match outcome {
                TransformOutcome::Replaced(handle) => {
                    &&& r is Ok
                    &&& final(self).img().spec_handle() == handle
                    &&& final(self).img().spec_columns() == width
                    &&& final(self).img().spec_rows() == height
                    &&& final(self).img().spec_filename_buf() == old(self).img().spec_filename_buf()
                    &&& final(self).img().spec_magick_buf() == old(self).img().spec_magick_buf()
                },
                TransformOutcome::Failed(exception) => {
                    &&& final(self).img() == old(self).img()
                    &&& r == Err::<(), Error>(spec_native_error(exception))
                },
            },
    ;

    fn rotate(&mut self, outcome: ReshapeOutcome) -> (r: Result<(), Error>)
        requires
            old(self).inv(),
            outcome matches ReshapeOutcome::Replaced(handle, columns, rows) ==> handle != 0
                && columns >= 1 && rows >= 1,
        ensures
            final(self).inv(),
            final(self).spec_info() == old(self).spec_info(),
            match outcome {
                ReshapeOutcome::Replaced(handle, columns, rows) => {
                    &&& r is Ok
                    &&& final(self).img().spec_handle() == handle
                    &&& final(self).img().spec_columns() == columns
                    &&& final(self).img().spec_rows() == rows
                    &&& final(self).img().spec_filename_buf() == old(self).img().spec_filename_buf()
                    &&& final(self).img().spec_magick_buf() == old(self).img().spec_magick_buf()
                },
                ReshapeOutcome::Failed(exception) => {
                    &&& final(self).img() == old(self).img()
                    &&& r == Err::<(), Error>(spec_native_error(exception))
                },
            },
    ;

    fn crop(&mut self, x: i64, y: i64, width: u64, height: u64, outcome: TransformOutcome) -> (r:
        Result<(), Error>)
        requires
            old(self).inv(),
            outcome matches TransformOutcome::Replaced(handle) ==> handle != 0 && width >= 1
                && height >= 1,
        ensures
            final(self).inv(),
            final(self).spec_info() == old(self).spec_info(),
            match outcome {
                TransformOutcome::Replaced(handle) => {
                    &&& r is Ok
                    &&& final(self).img().spec_handle() == handle
                    &&& final(self).img().spec_columns() == width
                    &&& final(self).img().spec_rows() == height
                    &&& final(self).img().spec_filename_buf() == old(self).img().spec_filename_buf()
                    &&& final(self).img().spec_magick_buf() == old(self).img().spec_magick_buf()
                },
                TransformOutcome::Failed(exception) => {
                    &&& final(self).img() == old(self).img()
                    &&& r == Err::<(), Error>(spec_native_error(exception))
                },
            },
    ;

    fn mirror(&mut self, outcome: TransformOutcome) -> (r: Result<(), Error>)
        requires
            old(self).inv(),
            outcome matches TransformOutcome::Replaced(handle) ==> handle != 0,
        ensures
            final(self).inv(),
            final(self).spec_info() == old(self).spec_info(),
            match outcome {
                TransformOutcome::Replaced(handle) => {
                    &&& r is Ok
                    &&& final(self).img().spec_handle() == handle
                    &&& final(self).img().spec_columns() == old(self).img().spec_columns()
                    &&& final(self).img().spec_rows() == old(self).img().spec_rows()
                    &&& final(self).img().spec_filename_buf() == old(self).img().spec_filename_buf()
                    &&& final(self).img().spec_magick_buf() == old(self).img().spec_magick_buf()
                },
                TransformOutcome::Failed(exception) => {
                    &&& final(self).img() == old(self).img()
                    &&& r == Err::<(), Error>(spec_native_error(exception))
                },
            },
    ;

    fn smart_scale(&mut self, w: Option<u64>, h: Option<u64>, outcome: TransformOutcome) -> (r:
        Result<(), Error>)
        requires
            old(self).inv(),
            outcome matches TransformOutcome::Replaced(handle) ==> handle != 0
                && spec_smart_target(
                old(self).img().spec_columns() as int,
                old(self).img().spec_rows() as int,
                w,
                h,
            ).0 >= 1 && spec_smart_target(
                old(self).img().spec_columns() as int,
                old(self).img().spec_rows() as int,
                w,
                h,
            ).1 >= 1,
        ensures
            final(self).inv(),
            final(self).spec_info() == old(self).spec_info(),
            match outcome {
                TransformOutcome::Replaced(handle) => {
                    &&& r is Ok
                    &&& final(self).img().spec_handle() == handle
                    &&& final(self).img().spec_columns() as int == spec_smart_target(
                        old(self).img().spec_columns() as int,
                        old(self).img().spec_rows() as int,
                        w,
                        h,
                    ).0
                    &&& final(self).img().spec_rows() as int == spec_smart_target(
                        old(self).img().spec_columns() as int,
                        old(self).img().spec_rows() as int,
                        w,
                        h,
                    ).1
                    &&& final(self).img().spec_filename_buf() == old(self).img().spec_filename_buf()
                    &&& final(self).img().spec_magick_buf() == old(self).img().spec_magick_buf()
                },
                TransformOutcome::Failed(exception) => {
                    &&& final(self).img() == old(self).img()
                    &&& r == Err::<(), Error>(spec_native_error(exception))
                },
            },
    ;

    fn as_bytes(&self, outcome: BlobOutcome) -> (r: Result<Vec<u8>, Error>)
        requires
            self.inv(),
        ensures
            match outcome {
                BlobOutcome::Blob(bytes) => r == Ok::<Vec<u8>, Error>(bytes),
                BlobOutcome::Failed(exception) => r == Err::<Vec<u8>, Error>(
                    spec_native_error(exception),
                ),
            },
    ;

    fn set_write_path(&mut self, path: &str) -> (r: Result<(), Error>)
        requires
            old(self).inv(),
        ensures
            final(self).inv(),
            final(self).spec_info() == old(self).spec_info(),
            final(self).img().spec_handle() == old(self).img().spec_handle(),
            final(self).img().spec_columns() == old(self).img().spec_columns(),
            final(self).img().spec_rows() == old(self).img().spec_rows(),
            final(self).img().spec_magick_buf() == old(self).img().spec_magick_buf(),
            match r {
                Ok(()) => storable(encode_utf8(path@)) && final(self).img().spec_name()
                    == encode_utf8(path@),
                Err(e) => e == Error::EncodingFailure && !storable(encode_utf8(path@))
                    && final(self).img().spec_filename_buf() == old(
                    self,
                ).img().spec_filename_buf(),
            },
    ;

    fn write(&self, outcome: WriteOutcome) -> (r: Result<(), Error>)
        requires
            self.inv(),
        ensures
            match outcome {
                WriteOutcome::Written => r is Ok,
                WriteOutcome::Failed(exception) => r == Err::<(), Error>(
                    spec_native_error(exception),
                ),
            },
    ;
}

impl ImageLike for ImageWithInfo {
    open spec fn img(&self) -> Image {
        self.image
    }

    open spec fn inv(&self) -> bool {
        self.image.wf() && self.info.wf()
    }

    open spec fn spec_info(&self) -> Option<ImageInfo> {
        Some(self.info)
    }

    fn image_ref(&self) -> (r: &Image) {
        &self.image
    }

    fn opt_info_ref(&self) -> (r: Option<&ImageInfo>) {
        Some(&self.info)
    }

    fn name(&self) -> (r: Result<String, Error>) {
        self.image.name()
    }

    fn mime_type(&self) -> (r: Result<String, Error>) {
        self.image.mime_type()
    }

    fn dimensions(&self) -> (r: (u64, u64)) {
        self.image.dimensions()
    }

    fn set_format(&mut self, fmt: &str) -> (r: Result<(), Error>) {
        self.image.set_format(fmt)
    }

    fn scale(&mut self, width: u64, height: u64, outcome: TransformOutcome) -> (r: Result<
        (),
        Error,
    >) {
        self.image.scale(width, height, outcome)
    }

    fn rotate(&mut self, outcome: ReshapeOutcome) -> (r: Result<(), Error>) {
        self.image.rotate(outcome)
    }

    fn crop(&mut self, x: i64, y: i64, width: u64, height: u64, outcome: TransformOutcome) -> (r:
        Result<(), Error>) {
        self.image.crop(x, y, width, height, outcome)
    }

    fn mirror(&mut self, outcome: TransformOutcome) -> (r: Result<(), Error>) {
        self.image.mirror(outcome)
    }

    fn smart_scale(&mut self, w: Option<u64>, h: Option<u64>, outcome: TransformOutcome) -> (r:
        Result<(), Error>) {
        self.image.smart_scale(w, h, outcome)
    }

    fn as_bytes(&self, outcome: BlobOutcome) -> (r: Result<Vec<u8>, Error>) {
        self.image.as_bytes(outcome)
    }

    fn set_write_path(&mut self, path: &str) -> (r: Result<(), Error>) {
        self.image.set_write_path(path)
    }

    fn write(&self, outcome: WriteOutcome) -> (r: Result<(), Error>) {
        self.image.write(outcome)
    }
}

impl<T: StorageType> ImageLike for ImageWithContainer<T> {
    open spec fn img(&self) -> Image {
        self.image
    }

    open spec fn inv(&self) -> bool {
        self.image.wf()
    }

    open spec fn spec_info(&self) -> Option<ImageInfo> {
        None
    }

    fn image_ref(&self) -> (r: &Image) {
        &self.image
    }

    fn opt_info_ref(&self) -> (r: Option<&ImageInfo>) {
        None
    }

    fn name(&self) -> (r: Result<String, Error>) {
        self.image.name()
    }

    fn mime_type(&self) -> (r: Result<String, Error>) {
        self.image.mime_type()
    }

    fn dimensions(&self) -> (r: (u64, u64)) {
        self.image.dimensions()
    }

    fn set_format(&mut self, fmt: &str) -> (r: Result<(), Error>) {
        self.image.set_format(fmt)
    }

    fn scale(&mut self, width: u64, height: u64, outcome: TransformOutcome) -> (r: Result<
        (),
        Error,
    >) {
        self.image.scale(width, height, outcome)
    }

    fn rotate(&mut self, outcome: ReshapeOutcome) -> (r: Result<(), Error>) {
        self.image.rotate(outcome)
    }

    fn crop(&mut self, x: i64, y: i64, width: u64, height: u64, outcome: TransformOutcome) -> (r:
        Result<(), Error>) {
        self.image.crop(x, y, width, height, outcome)
    }

    fn mirror(&mut self, outcome: TransformOutcome) -> (r: Result<(), Error>) {
        self.image.mirror(outcome)
    }

    fn smart_scale(&mut self, w: Option<u64>, h: Option<u64>, outcome: TransformOutcome) -> (r:
        Result<(), Error>) {
        self.image.smart_scale(w, h, outcome)
    }

    fn as_bytes(&self, outcome: BlobOutcome) -> (r: Result<Vec<u8>, Error>) {
        self.image.as_bytes(outcome)
    }

    fn set_write_path(&mut self, path: &str) -> (r: Result<(), Error>) {
        self.image.set_write_path(path)
    }

    fn write(&self, outcome: WriteOutcome) -> (r: Result<(), Error>) {
        self.image.write(outcome)
    }
}

} // verus!
