# photo_frame

Golden-ratio photo framing with an EXIF caption, written in Verus.

`src/` is the verified library: EXIF reading (camera, lens, exposure
facts with their fallback chains, capture time, orientation), format
detection, decoding to upright RGBA8 pixels, the two frame geometries
(the classic `φ⁶` border and the golden composition, computed exactly in
`Z[√5]`, with the golden rectangles and spiral they derive from), the
raster work of laying a photo on its frame, caption text
assembly, option and preset parsing, and the decisions of a batch run.
Calls into `image`, `zune-jpeg`, `jpeg-encoder`, `kamadak-exif`,
`fast_image_resize` and `num_cpus` go through small trusted wrappers whose
contracts state what those crates document.

`app/` is the rest: the command-line driver, the browser binding, caption
type setting (floating-point glyph metrics) and HEIC decoding through
libheif. Caption fonts are read at run time from `PHOTO_FRAME_FONT_DIR`.

`tests/` exercises the library on concrete inputs.
