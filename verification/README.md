# Secure device credential rotation

A verified library for rotating the credentials of devices, in Verus, and the
ordinary Rust around it.

* `src/` is the library. It computes on plain values: product facts and their
  mappings, one device's durable command protocol, the checks of broker
  assertions, credentials and identity tokens, and the decisions of the two
  programs. Every function states what it returns; the public `law_` proof
  functions state what holds of the operations together.
* `tests/` runs the library on concrete values, with the real cryptography.
* `app/` holds the two programs: the control program, and the device agent
  (the same binary under the name `reference-device-agent`). They read, send
  and store; what to do next they ask the library.

## What is trusted

Calls into other crates stand in small functions whose doc comment names the
call and what is taken for granted of it: hashing, base64 and Ed25519; PEM,
X.509 and certificate chains; URLs, JSON and header values; and the signature
check of identity tokens. Where a result takes pages to describe, a contract
only gives it a name, and says the rest over that name.

## The life of a command

A delivered command is answered from the journal, refused, or matched with an
artifact of the local catalog. An accepted command installs the next credential
revision and queues two facts: its acknowledgement and a report. The confirmed
acknowledgement asks for a reconnect under the new credential; the new session
releases the report; the settled delivery lets it go out; its confirmation ends
the rotation. `soundness` proves that every operation keeps a state sound, and
`protocol` proves that this order cannot be left.
