# portfwd

A TCP port forwarder. It listens on local addresses and forwards each
connection to the remote address paired with it:

    portfwd 127.0.0.1:8080,192.168.0.100:80 0.0.0.0:1080,192.168.0.100:1080

`src/` is a library verified with Verus. It decides how an argument is read,
which server or tunnel an event is for, how a tunnel is opened and given up, and
how bytes move from one socket to the other. Each function takes the outcome of
the last operation and says what to do next.

`app/` is the program. It owns the sockets, the poller and its loop, the worker
threads and the one counter that all tokens are drawn from; it reads the text of
an address, and otherwise does as the library says.
