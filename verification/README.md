# bacnet_rs

A BACnet protocol stack whose encoding, framing, network-layer, object and
client logic is written in Verus and proved against its contracts.

- `src/` is the verified library:
  - `encoding/`: application and context tags, integers, strings, dates,
    bit strings, object identifiers, streams, the encoding cache and the
    error statistics of an encoding analyzer;
  - `datalink/`: BVLC headers and datagrams of BACnet/IP, Ethernet frames,
    MS/TP frames and the token-passing node, frame validation and analysis;
  - `network/`: NPDUs, network layer messages, routing, path discovery
    (Dijkstra, proved to return a cheapest path), diagnostics, security and
    the broadcast distribution and foreign device tables;
  - `app/`: APDUs and segmentation;
  - `object/`: binary, multi-state, file and device objects, priority
    arrays, engineering units, and the Device object's registry of object
    type handlers, which applications implement through a trait;
  - `client/`: the frames a client sends, how it reads the replies, and
    which properties a batch read asks of each object, five objects at a
    time.
- `app/` holds what talks to sockets and clocks or works with floating
  point (data links over UDP, the client's receive loop, reals, analog
  objects, throughput and entropy figures), around the library.
- `tests/` exercises the library on concrete values.
