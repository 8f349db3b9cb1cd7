# screencast_bridge

Streams a Linux desktop to an iOS device. The screen is captured through the
XDG screen-cast portal, encoded as RTP/H.264 by GStreamer, and each RTP packet
is wrapped in an IPv6/UDP datagram and sent through the device's
CoreDeviceProxy tunnel.

- `src/` is the verified library (Verus): header layout and UDP checksum
  (`wire`), the datagrams that carry frames (`datagram`), the handling of
  packets from the device (`inbound`), the decisions of the forwarding loop
  (`forwarding`), device selection (`device`) and the pipeline descriptions
  (`pipeline`).
- `app/` is the program around it: command line, usbmuxd and tunnel I/O, the
  portal session, GStreamer, and the C entry points of the iOS receiver.
