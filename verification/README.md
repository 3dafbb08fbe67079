# ajazz_sdk

A library for Ajazz stream controllers (AKP153, AKP815, AKP03 and their
revisions, and the Mad Dog GK150W), verified with Verus.

- `src/info.rs`: the device catalogue (`Kind`): vendor and product IDs, key
  counts and layout, screen sizes and image formats, with the laws that tie
  them together.
- `src/protocol/`: the protocol constants and the input report parser, the
  native key index tables, the acknowledgement check and the string extraction
  of device replies.
- `src/images.rs`: preparing images for the devices: turning, resizing,
  mirroring and JPEG encoding through the `image` crate, the boot logo quality
  search of the Mad Dog GK150W and the image report sizes.
- `app/`: the same functions on `image::DynamicImage`, the error type with its
  `thiserror` messages, and the variants that run on a tokio runtime.
