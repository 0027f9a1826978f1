# libcdio-rs

Access to optical disc drives and images: SCSI MMC commands, drive
capabilities, and ISO 9660 and UDF filesystems, on top of GNU libcdio.

## Layout

- `src/` is the verified library, written in Verus. It holds everything
  that is decided or computed: the MMC command descriptor blocks and the
  decoding of what drives answer (`mmc`), drive identifiers and capability
  sets (`drive`), what opening a drive, image or entry by path comes to
  (`open`), ISO 9660 and UDF entry metadata (`iso9660`, `udf`),
  block-wise reading of an entry's data (`reader`), the report text of the
  command-line tools (`report`), their arguments (`cli`), and the routing of
  libcdio's log messages (`logging`). Calls into the `time` and `file_mode`
  crates and into std's text functions stand behind small trusted wrappers
  whose contracts are documented where they are declared.
- `app/` is the platform side: the libcdio handles (devices, images,
  entries) that talk to the C library, the `std::io` readers, the error
  types with their messages, and the four command-line tools.
- `tests/` runs the library on concrete inputs.
