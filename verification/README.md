# pxe_first_stage

The first stage of a PXE network boot for x86: it finds the boot server
through the PXE stack of the network card's ROM, downloads the PXE bootloader
and the kernel over TFTP, and hands over to the next stage.

- `src/` is the verified library (Verus): real-mode `segment:offset`
  pointers (`segmented_ptr`), the 16-bit fields of the PXE parameter
  structures (`wire`), the `!PXE` structure and the request and reply layouts
  of the PXE API calls (`pxe`), the bookkeeping of a TFTP download
  (`download`) and the bytes sent to the BIOS teletype service (`print`).
- `app/` is the program around it: the inline assembly that calls the PXE
  entry point and the BIOS, the raw memory accesses, the download loop, and
  the host-side helper that lays out a TFTP folder.
- `tests/` exercises the library on concrete values.
